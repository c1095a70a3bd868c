//! Plain data records of the game world.
//!
//! Entities are named by their 64-bit identifiers. Lengths, charges and
//! coordinates count thousandths of a unit.

use vstd::prelude::*;
use crate::geometry::Point;

verus! {

/// Fewest bodies a cord chain may hold.
pub const MIN_SEGMENTS: usize = 2;

/// Facing of the player sprite.
#[derive(Clone, Copy, Debug, PartialEq, Eq, Structural)]
pub enum PlayerDirection {
    Up,
    Down,
    Left,
    Right,
}

/// Sprite state of the player.
#[derive(Clone, Copy, Debug, PartialEq, Eq, Structural)]
pub struct PlayerSprite {
    pub current_direction: PlayerDirection,
}

/// Tile-to-tile movement state of the player.
#[derive(Clone, Copy, Debug, PartialEq, Eq)]
pub struct GridMovement {
    pub target_position: Option<Point>,
    /// Thousandths of a unit per second.
    pub move_speed: u32,
    pub is_moving: bool,
}

/// The isometric grid the world is laid out on.
#[derive(Clone, Copy, Debug, PartialEq, Eq, Structural)]
pub struct IsometricGrid {
    /// Width of one tile, in thousandths of a unit.
    pub tile_size: u32,
}

/// A rechargeable store of power.
#[derive(Clone, Copy, Debug, PartialEq, Eq, Structural)]
pub struct Battery {
    pub max_charge: u32,
    pub current_charge: u32,
}

/// A source that feeds an attached cord.
#[derive(Clone, Copy, Debug, PartialEq, Eq, Structural)]
pub struct PowerSource {
    /// Thousandths of a charge unit per second.
    pub max_output: u32,
}

/// A panel that charges in daylight.
#[derive(Clone, Copy, Debug, PartialEq, Eq, Structural)]
pub struct SolarPanel {
    /// Thousandths of a charge unit per second at full brightness.
    pub max_output: u32,
}

/// The point on a pole at which cords are fastened.
#[derive(Clone, Copy, Debug, PartialEq, Eq, Structural)]
pub struct AttachmentPoint {
    /// The entity of the point itself.
    pub entity: u64,
    pub parent_pole: u64,
}

/// Switches that enable or disable whole subsystems.
#[derive(Clone, Copy, Debug, PartialEq, Eq, Structural)]
pub struct SystemToggles {
    pub player_movement: bool,
    pub cord_systems: bool,
    pub camera_follow: bool,
    pub camera_zoom: bool,
    pub player_rotation: bool,
}

/// The cord between the player and a pole.
///
/// `segments` and `joints` describe the chain of physics bodies: joint `i`
/// links segment `i` to segment `i + 1`, and the last joint links the last
/// segment to the player. `anchor_joint` links the pole to the first segment
/// while the cord is attached. `trail_path` is the cord laid on the ground,
/// tile centre by tile centre, starting at the pole.
#[derive(Clone, Debug)]
pub struct CordSystem {
    pub segments: Vec<u64>,
    pub joints: Vec<u64>,
    pub anchor_joint: Option<u64>,
    pub visual_meshes: Vec<u64>,
    pub max_length: u32,
    pub min_length: u32,
    pub current_length: u32,
    pub segment_length: u32,
    pub segment_size: u32,
    pub player_entity: u64,
    pub is_retracting: bool,
    pub attached_pole: Option<u64>,
    pub attachment_range: u32,
    pub trail_path: Vec<Point>,
    pub min_trail_segment_distance: u32,
}

/// Mathematical model of a `CordSystem`.
pub struct CordModel {
    pub segments: Seq<u64>,
    pub joints: Seq<u64>,
    pub anchor_joint: Option<u64>,
    pub visual_meshes: Seq<u64>,
    pub max_length: int,
    pub min_length: int,
    pub current_length: int,
    pub segment_length: int,
    pub segment_size: int,
    pub player_entity: u64,
    pub is_retracting: bool,
    pub attached_pole: Option<u64>,
    pub attachment_range: int,
    pub trail_path: Seq<Point>,
    pub min_trail_segment_distance: int,
}

impl CordModel {
    /// The length stays between its two limits.
    pub open spec fn length_in_bounds(self) -> bool {
        self.min_length <= self.current_length <= self.max_length
    }

    /// The chain holds at least two bodies, one joint after each, and an
    /// anchor joint only while attached.
    pub open spec fn chain_wf(self) -> bool {
        &&& self.segments.len() >= MIN_SEGMENTS
        &&& self.joints.len() == self.segments.len()
        &&& self.anchor_joint is Some ==> self.attached_pole is Some
    }

    /// Number of joints alive in the physics world.
    pub open spec fn joint_count(self) -> nat {
        if self.anchor_joint is Some {
            self.joints.len() + 1
        } else {
            self.joints.len()
        }
    }

    /// The cord is well formed: its length lies within its limits, its
    /// chain is well formed and its segments have a length.
    pub open spec fn wf(self) -> bool {
        &&& self.length_in_bounds()
        &&& self.chain_wf()
        &&& self.segment_length > 0
    }
}

impl View for CordSystem {
    type V = CordModel;

    open spec fn view(&self) -> CordModel {
        CordModel {
            segments: self.segments@,
            joints: self.joints@,
            anchor_joint: self.anchor_joint,
            visual_meshes: self.visual_meshes@,
            max_length: self.max_length as int,
            min_length: self.min_length as int,
            current_length: self.current_length as int,
            segment_length: self.segment_length as int,
            segment_size: self.segment_size as int,
            player_entity: self.player_entity,
            is_retracting: self.is_retracting,
            attached_pole: self.attached_pole,
            attachment_range: self.attachment_range as int,
            trail_path: self.trail_path@,
            min_trail_segment_distance: self.min_trail_segment_distance as int,
        }
    }
}

impl CordSystem {
    /// A detached cord of two segments at its shortest length, with an empty
    /// trail.
    pub fn new(
        player_entity: u64,
        first_segment: u64,
        second_segment: u64,
        link_joint: u64,
        player_joint: u64,
        min_length: u32,
        max_length: u32,
        segment_length: u32,
        segment_size: u32,
        attachment_range: u32,
    ) -> (cord: CordSystem)
        requires
            min_length <= max_length,
            segment_length > 0,
        ensures
            cord@.wf(),
            cord@.segments == seq![first_segment, second_segment],
            cord@.joints == seq![link_joint, player_joint],
            cord@.anchor_joint is None,
            cord@.visual_meshes.len() == 0,
            cord@.trail_path.len() == 0,
            cord@.attached_pole is None,
            !cord@.is_retracting,
            cord@.current_length == min_length,
            cord@.min_length == min_length,
            cord@.max_length == max_length,
            cord@.segment_length == segment_length,
            cord@.segment_size == segment_size,
            cord@.attachment_range == attachment_range,
            cord@.player_entity == player_entity,
            cord@.min_trail_segment_distance == 0,
    {
        let mut segments: Vec<u64> = Vec::new();
        segments.push(first_segment);
        segments.push(second_segment);
        let mut joints: Vec<u64> = Vec::new();
        joints.push(link_joint);
        joints.push(player_joint);
        CordSystem {
            segments,
            joints,
            anchor_joint: None,
            visual_meshes: Vec::new(),
            max_length,
            min_length,
            current_length: min_length,
            segment_length,
            segment_size,
            player_entity,
            is_retracting: false,
            attached_pole: None,
            attachment_range,
            trail_path: Vec::new(),
            min_trail_segment_distance: 0,
        }
    }

    /// Decides whether the cord is well formed.
    pub fn is_wf(&self) -> (ok: bool)
        ensures
            ok == self@.wf(),
    {
        self.min_length <= self.current_length && self.current_length <= self.max_length
            && self.segments.len() >= MIN_SEGMENTS && self.joints.len() == self.segments.len() && (
        self.anchor_joint.is_none() || self.attached_pole.is_some()) && self.segment_length > 0
    }
}

} // verus!
