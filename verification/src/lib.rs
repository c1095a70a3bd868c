//! Simulation core of a top-down game in which a robot drags a power cord
//! from pole to pole.
//!
//! The crate holds the rules of the game and none of its engine: how the
//! cord's length follows the player, how its chain of bodies and its trail
//! on the ground grow and shrink, which pole an attach command picks, how
//! the drawn curve is sampled, and the smaller rules around battery,
//! daylight, movement, camera and debug panel. A host feeds it positions
//! and input and carries out what it answers.
//!
//! All quantities are fixed-point integers: lengths, coordinates, charges
//! and factors count thousandths of a unit, durations count milliseconds.
//! Entities are named by their 64-bit identifiers.

pub mod anchors;
pub mod camera;
pub mod components;
pub mod cord_system;
pub mod curve;
pub mod day_night_cycle;
pub mod geometry;
pub mod player_movement;
pub mod power_system;
pub mod render;
pub mod segments;
pub mod setup;
pub mod theorems;
pub mod trail;
pub mod ui;

pub use anchors::{find_closest_pole, AnchorPoint, AnchorRegistry};
pub use camera::{camera_follow_player, camera_zoom, CameraPose, ScrollEvent, ScrollUnit};
pub use components::{
    AttachmentPoint, Battery, CordModel, CordSystem, GridMovement, IsometricGrid, PlayerDirection,
    PlayerSprite, PowerSource, SolarPanel, SystemToggles, MIN_SEGMENTS,
};
pub use cord_system::{
    add_segment, attach_cord_to_pole, cord_attachment_wrapper, cord_retraction_wrapper,
    disconnect_cord_from_pole, grow_chain, handle_cord_attachment, handle_cord_retraction,
    record_anchor_joint, remove_segment, shrink_chain, update_cord_length, AttachmentLink, AttachmentOutcome, CordInput,
    CordSpeeds, NewSegment, RemovedSegment, SegmentAdjustment, EXTENSION_SPEED, RETRACTION_SPEED,
};
pub use curve::{bezier_path, catmull_rom_path, sample_curve, CurveKind, BEZIER_SAMPLES};
pub use day_night_cycle::{
    apply_day_night_lighting, update_day_night_cycle, update_sky_color, AffectedByDayNight, Color,
    DayNightCycle,
};
pub use geometry::{Point, WORLD_MAX};
pub use player_movement::{
    grid_movement_system, move_player, update_player_sprite_direction, MoveKeys,
};
pub use power_system::{solar_charge, transfer_power};
pub use render::{render_cord_curve, render_cord_meshes, CordMesh, CordMeshKind, RenderPlan};
pub use segments::{joint_limits, next_segment_position, JointKind, JointLimits};
pub use setup::{
    game_cord_config, setup, CordConfig, InitialChain, WorldSetup, Z_CORD_LAYER, Z_GAME_LAYER,
};
pub use trail::{snap_to_tile_center, update_cord_trail};
pub use ui::{
    setup_ui, update_battery_display, update_ui, BatteryReadout, ButtonAppearance, SystemKind,
    ToggleButton,
};
