use balthazar::segments::{joint_limits, next_segment_position, JointKind, JointLimits};
use balthazar::cord_system::{handle_cord_retraction, CordInput, SegmentAdjustment};
use balthazar::setup::{
    cord_texture_data, game_cord_config, grid_to_world, setup, CordConfig, InitialChain,
    CORD_TEXTURE_HEIGHT, CORD_TEXTURE_WIDTH, INITIAL_ZOOM,
};
use balthazar::{IsometricGrid, PlayerDirection, Point, Z_CORD_LAYER, Z_GAME_LAYER};

fn units(value: f64) -> u32 {
    (value * 1000.0).round() as u32
}

fn at(x: f64, y: f64) -> Point {
    Point { x: (x * 1000.0).round() as i64, y: (y * 1000.0).round() as i64 }
}

#[test]
fn test_joint_creation_parameters() {
    let segment_length = units(20.0);

    let tight = joint_limits(segment_length, JointKind::Link);
    let tight_min_actual = tight.min;
    let tight_max_actual = tight.max;

    assert_eq!(tight_min_actual, units(19.6) as u64);
    assert_eq!(tight_max_actual, units(20.4) as u64);

    let loose = joint_limits(segment_length, JointKind::End);
    let loose_min_actual = loose.min;
    let loose_max_actual = loose.max;

    assert_eq!(loose_min_actual, units(18.0) as u64);
    assert_eq!(loose_max_actual, units(22.0) as u64);

    assert!(tight_min_actual > loose_min_actual);
    assert!(tight_max_actual < loose_max_actual);
}

#[test]
fn joint_limits_round_down_and_cover_the_whole_range() {
    assert_eq!(joint_limits(0, JointKind::Link), JointLimits { min: 0, max: 0 });
    assert_eq!(joint_limits(1, JointKind::End), JointLimits { min: 0, max: 1 });
    assert_eq!(joint_limits(99, JointKind::Link), JointLimits { min: 97, max: 100 });
    assert_eq!(
        joint_limits(u32::MAX, JointKind::End),
        JointLimits { min: 3_865_470_565, max: 4_724_464_024 }
    );
}

#[test]
fn next_segment_lies_one_segment_length_toward_the_target() {
    let position = next_segment_position(at(0.0, 0.0), at(30.0, 40.0), units(20.0));
    assert_eq!(position, at(12.0, 16.0));

    let back = next_segment_position(at(10.0, 10.0), at(10.0, -90.0), units(20.0));
    assert_eq!(back, at(10.0, -10.0));

    // Beyond the target where it lies nearer than a segment length.
    let beyond = next_segment_position(at(0.0, 0.0), at(3.0, 0.0), units(20.0));
    assert_eq!(beyond, at(20.0, 0.0));
}

#[test]
fn next_segment_on_a_coinciding_target_stays_on_the_last_segment() {
    let position = next_segment_position(at(5.0, -7.0), at(5.0, -7.0), units(20.0));
    assert_eq!(position, at(5.0, -7.0));
}

#[test]
fn cord_texture_is_black_with_a_purple_line_along_the_middle() {
    let data = cord_texture_data();
    assert_eq!(data.len(), 32 * 8 * 4);
    assert_eq!(CORD_TEXTURE_WIDTH, 32);
    assert_eq!(CORD_TEXTURE_HEIGHT, 8);
    for row in 0..8 {
        for column in 0..32 {
            let index = (row * 32 + column) * 4;
            let pixel = &data[index..index + 4];
            if row == 3 || row == 4 {
                assert_eq!(pixel, &[128, 0, 128, 255]);
            } else {
                assert_eq!(pixel, &[0, 0, 0, 255]);
            }
        }
    }
}

#[test]
fn grid_points_map_to_the_isometric_plane() {
    let grid = IsometricGrid { tile_size: units(64.0) };
    assert_eq!(grid_to_world(&grid, 0, 0), at(0.0, 0.0));
    assert_eq!(grid_to_world(&grid, 1, 0), at(32.0, 16.0));
    assert_eq!(grid_to_world(&grid, 0, 1), at(-32.0, 16.0));
    assert_eq!(grid_to_world(&grid, 3, -2), at(160.0, 16.0));
    assert_eq!(grid_to_world(&grid, -1, -1), at(0.0, -32.0));
    // Halves round away from zero.
    let fine = IsometricGrid { tile_size: 1 };
    assert_eq!(grid_to_world(&fine, 1, 0), Point { x: 1, y: 0 });
    assert_eq!(grid_to_world(&fine, 0, 1), Point { x: -1, y: 0 });
    assert_eq!(grid_to_world(&fine, 1, 1), Point { x: 0, y: 1 });
}

fn chain() -> InitialChain {
    InitialChain {
        first_segment: 1,
        second_segment: 2,
        link_joint: 10,
        player_joint: 11,
        anchor_joint: 12,
    }
}

#[test]
fn world_starts_with_a_charged_player_on_an_attached_cord() {
    let world = setup(42, 200, chain(), game_cord_config());
    assert_eq!(world.cord_texture, cord_texture_data());
    assert_eq!(world.grid.tile_size, units(64.0));
    assert_eq!(world.camera_scale, INITIAL_ZOOM);
    assert_eq!(INITIAL_ZOOM, 250_000);
    assert_eq!(world.player_position, at(0.0, 0.0));
    assert_eq!(world.player_sprite.current_direction, PlayerDirection::Up);
    assert_eq!(world.movement.target_position, None);
    assert_eq!(world.movement.move_speed, units(400.0));
    assert!(!world.movement.is_moving);
    assert_eq!(world.battery.max_charge, units(100.0));
    assert_eq!(world.battery.current_charge, units(100.0));
    assert_eq!(world.solar_panel.max_output, units(5.0));

    let cord = &world.cord_system;
    assert!(cord.is_wf());
    assert_eq!(cord.player_entity, 42);
    assert_eq!(cord.attached_pole, Some(200));
    assert_eq!(cord.anchor_joint, Some(12));
    assert_eq!(cord.segments, vec![1, 2]);
    assert_eq!(cord.joints, vec![10, 11]);
    assert_eq!(cord.min_length, units(50.0));
    assert_eq!(cord.max_length, units(150.0));
    assert_eq!(cord.current_length, units(50.0));
    assert_eq!(cord.segment_length, units(20.0));
    assert_eq!(cord.segment_size, units(8.0));
    assert_eq!(cord.attachment_range, units(100.0));
    assert_eq!(cord.min_trail_segment_distance, units(10.0));
    assert!(!cord.is_retracting);
    assert!(cord.trail_path.is_empty());
    assert!(cord.visual_meshes.is_empty());
    assert!(Z_CORD_LAYER < Z_GAME_LAYER);
    assert_eq!(Z_CORD_LAYER, units(150.0));
    assert_eq!(Z_GAME_LAYER, units(200.0));
}

#[test]
fn cord_of_the_new_world_takes_the_length_controller() {
    let mut world = setup(42, 200, chain(), game_cord_config());
    let pull = CordInput {
        retract_held: false,
        player_pos: at(60.0, 0.0),
        pole_pos: Some(at(0.0, 0.0)),
        dt_ms: 100,
    };
    let adjustment = handle_cord_retraction(&mut world.cord_system, pull);
    assert_eq!(world.cord_system.current_length, units(58.0));
    assert_eq!(adjustment, SegmentAdjustment::Keep);
}

#[test]
fn cord_configuration_is_told_from_a_broken_one() {
    let good = game_cord_config();
    assert!(good.is_wf());
    assert!(!CordConfig { min_length: 150_001, ..good }.is_wf());
    assert!(!CordConfig { segment_length: 0, ..good }.is_wf());
    assert!(!CordConfig { attachment_range: 0, ..good }.is_wf());
    assert!(CordConfig { min_length: 150_000, ..good }.is_wf());

    let custom = CordConfig {
        min_length: 5,
        max_length: 9,
        segment_length: 1,
        segment_size: 0,
        attachment_range: 1,
        min_trail_segment_distance: 0,
    };
    let world = setup(1, 2, chain(), custom);
    assert!(world.cord_system.is_wf());
    assert_eq!(world.cord_system.current_length, 5);
    assert_eq!(world.cord_system.max_length, 9);
    assert_eq!(world.cord_system.attached_pole, Some(2));
}
