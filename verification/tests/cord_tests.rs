use balthazar::anchors::{find_closest_pole, AnchorPoint};
use balthazar::cord_system::{
    add_segment, remove_segment, target_segment_count, update_cord_length, CordInput, CordSpeeds,
    SegmentAdjustment, EXTENSION_SPEED, RETRACTION_SPEED,
};
use balthazar::geometry::distance_squared;
use balthazar::{CordSystem, Point};

/// World units to thousandths.
fn units(value: f64) -> u32 {
    (value * 1000.0).round() as u32
}

/// World coordinates to a fixed-point position.
fn at(x: f64, y: f64) -> Point {
    Point { x: (x * 1000.0).round() as i64, y: (y * 1000.0).round() as i64 }
}

fn cord(
    segments: Vec<u64>,
    joints: Vec<u64>,
    current_length: f64,
    is_retracting: bool,
    attached_pole: Option<u64>,
) -> CordSystem {
    CordSystem {
        segments,
        joints,
        anchor_joint: None,
        visual_meshes: vec![],
        max_length: units(150.0),
        min_length: units(50.0),
        current_length: units(current_length),
        segment_length: units(20.0),
        segment_size: units(8.0),
        player_entity: 100,
        is_retracting,
        attached_pole,
        attachment_range: units(100.0),
        trail_path: vec![],
        min_trail_segment_distance: units(10.0),
    }
}

/// A tick with the player `distance` away from the pole.
fn tick(retract_held: bool, distance: f64, delta_time: f64) -> CordInput {
    CordInput {
        retract_held,
        player_pos: at(distance, 0.0),
        pole_pos: Some(at(0.0, 0.0)),
        dt_ms: (delta_time * 1000.0).round() as u32,
    }
}

fn speeds(retraction: f64, extension: f64) -> CordSpeeds {
    CordSpeeds { retraction: units(retraction), extension: units(extension) }
}

#[test]
fn test_cord_retraction_logic() {
    let mut cord_system = cord(vec![1, 2], vec![10, 11], 100.0, false, Some(200));

    let retraction_speed = 100.0;
    let delta_time = 0.1;
    let should_retract = true;

    update_cord_length(
        &mut cord_system,
        tick(should_retract, 0.0, delta_time),
        speeds(retraction_speed, 80.0),
    );

    assert_eq!(cord_system.current_length, units(90.0));
    assert!(cord_system.is_retracting);
}

#[test]
fn test_cord_retraction_minimum_limit() {
    let mut cord_system = cord(vec![1, 2], vec![10, 11], 50.0, false, Some(200));

    let retraction_speed = 100.0;
    let delta_time = 0.1;
    let should_retract = true;

    update_cord_length(
        &mut cord_system,
        tick(should_retract, 0.0, delta_time),
        speeds(retraction_speed, 80.0),
    );

    assert_eq!(cord_system.current_length, units(50.0));
    assert!(!cord_system.is_retracting);
}

#[test]
fn test_cord_extension_when_player_pulls() {
    let mut cord_system = cord(vec![1, 2], vec![10, 11], 80.0, true, Some(200));

    let player_distance = 80.0 * 0.96;
    let extension_speed = 80.0;
    let delta_time = 0.1;
    let should_retract = false;

    update_cord_length(
        &mut cord_system,
        tick(should_retract, player_distance, delta_time),
        speeds(300.0, extension_speed),
    );

    assert_eq!(cord_system.current_length, units(88.0));
    assert!(!cord_system.is_retracting);
}

#[test]
fn test_cord_extension_maximum_limit() {
    let mut cord_system = cord(vec![1, 2], vec![10, 11], 149.0, true, Some(200));

    let player_distance = 149.0 * 0.96;
    let extension_speed = 80.0;
    let delta_time = 0.1;
    let should_retract = false;

    update_cord_length(
        &mut cord_system,
        tick(should_retract, player_distance, delta_time),
        speeds(300.0, extension_speed),
    );

    assert_eq!(cord_system.current_length, units(150.0));
    assert!(!cord_system.is_retracting);
}

#[test]
fn test_cord_no_extension_when_player_not_pulling() {
    let mut cord_system = cord(vec![1, 2], vec![10, 11], 80.0, true, Some(200));

    let player_distance = 80.0 * 0.9;
    let extension_speed = 80.0;
    let delta_time = 0.1;
    let should_retract = false;

    update_cord_length(
        &mut cord_system,
        tick(should_retract, player_distance, delta_time),
        speeds(300.0, extension_speed),
    );

    assert_eq!(cord_system.current_length, units(80.0));
    assert!(!cord_system.is_retracting);
}

#[test]
fn test_extension_functionality_after_pole_attachment() {
    let pole1 = 200;
    let pole2 = 201;

    let mut cord_system = cord(vec![1, 2], vec![10, 11], 80.0, false, Some(pole1));

    cord_system.attached_pole = Some(pole2);

    let player_distance_from_pole2 = 80.0 * 0.96;
    let extension_speed = 80.0;
    let delta_time = 0.1;
    let should_retract = false;

    update_cord_length(
        &mut cord_system,
        tick(should_retract, player_distance_from_pole2, delta_time),
        speeds(300.0, extension_speed),
    );

    assert_eq!(cord_system.current_length, units(88.0));
    assert_eq!(cord_system.attached_pole, Some(pole2));
}

#[test]
fn test_extension_fails_when_not_attached_to_any_pole() {
    let mut cord_system = cord(vec![1, 2], vec![10, 11], 80.0, false, None);

    let initial_length = cord_system.current_length;
    let player_distance = 80.0 * 0.96;
    let extension_speed = 80.0;
    let delta_time = 0.1;
    let should_retract = false;

    update_cord_length(
        &mut cord_system,
        tick(should_retract, player_distance, delta_time),
        speeds(300.0, extension_speed),
    );

    assert_eq!(cord_system.current_length, initial_length);
    assert_eq!(cord_system.attached_pole, None);
}

#[test]
fn test_pole_attachment_detachment() {
    let mut cord_system = cord(vec![1, 2], vec![10, 11], 80.0, false, Some(200));

    balthazar::cord_system::disconnect_cord_from_pole(&mut cord_system);
    assert_eq!(cord_system.attached_pole, None);

    let new_pole = 201;
    balthazar::cord_system::attach_cord_to_pole(&mut cord_system, new_pole);
    assert_eq!(cord_system.attached_pole, Some(new_pole));
}

#[test]
fn test_find_closest_pole_within_range() {
    let player_pos = at(0.0, 0.0);
    let pole1_pos = at(50.0, 0.0);
    let pole2_pos = at(0.0, 80.0);
    let pole3_pos = at(200.0, 0.0);

    let attachment_range = units(100.0);

    let distance1 = distance_squared(player_pos, pole1_pos);
    let distance2 = distance_squared(player_pos, pole2_pos);
    let distance3 = distance_squared(player_pos, pole3_pos);

    assert_eq!(distance1, 50_000 * 50_000);
    assert_eq!(distance2, 80_000 * 80_000);
    assert_eq!(distance3, 200_000 * 200_000);

    let range_squared = attachment_range as u128 * attachment_range as u128;
    assert!(distance1 <= range_squared && distance1 < distance2);
    assert!(distance3 > range_squared);

    let poles = vec![
        AnchorPoint { entity: 3, position: pole3_pos },
        AnchorPoint { entity: 2, position: pole2_pos },
        AnchorPoint { entity: 1, position: pole1_pos },
    ];
    let closest = find_closest_pole(player_pos, &poles, attachment_range);
    assert_eq!(closest, Some(AnchorPoint { entity: 1, position: pole1_pos }));
}

#[test]
fn test_no_poles_within_attachment_range() {
    let player_pos = at(0.0, 0.0);
    let pole_pos = at(200.0, 0.0);
    let attachment_range = units(100.0);

    let distance = distance_squared(player_pos, pole_pos);
    assert!(distance > attachment_range as u128 * attachment_range as u128);

    let poles = vec![AnchorPoint { entity: 1, position: pole_pos }];
    let closest_pole = find_closest_pole(player_pos, &poles, attachment_range);
    assert_eq!(closest_pole, None);
}

#[test]
fn test_segment_management_on_retraction() {
    let mut cord_system =
        cord(vec![1, 2, 3, 4], vec![10, 11, 12, 13], 80.0, true, Some(200));

    let initial_segments = cord_system.segments.len();
    assert_eq!(initial_segments, 4);

    cord_system.current_length = units(60.0);
    let new_target_segments = target_segment_count(&cord_system);
    assert_eq!(new_target_segments, 3);

    let mut next_joint = 20;
    while cord_system.segments.len() > new_target_segments.max(2) {
        let removed = remove_segment(&mut cord_system, next_joint);
        assert!(removed.is_some());
        next_joint += 1;
    }

    assert_eq!(cord_system.segments.len(), 3);
}

#[test]
fn test_segment_management_on_extension() {
    let mut cord_system = cord(vec![1, 2], vec![10, 11], 40.0, false, Some(200));

    let initial_segments = cord_system.segments.len();
    assert_eq!(initial_segments, 2);

    cord_system.current_length = units(80.0);
    let new_target_segments = target_segment_count(&cord_system);
    assert_eq!(new_target_segments, 4);

    while cord_system.segments.len() < new_target_segments {
        let new_segment = cord_system.segments.len() as u64 + 10;
        let new_joint = cord_system.joints.len() as u64 + 20;
        add_segment(&mut cord_system, new_segment, new_joint, new_joint + 100);
    }

    assert_eq!(cord_system.segments.len(), 4);
}

#[test]
fn test_minimum_segments_maintained() {
    let mut cord_system = cord(vec![1, 2], vec![10, 11], 30.0, true, Some(200));

    let new_target_segments = target_segment_count(&cord_system);
    let minimum_segments = 2;

    let final_segments = new_target_segments.max(minimum_segments);
    assert_eq!(final_segments, 2);

    let should_remove = cord_system.segments.len() > final_segments;
    assert!(!should_remove);

    assert_eq!(remove_segment(&mut cord_system, 12), None);
    assert_eq!(cord_system.segments, vec![1, 2]);
    assert_eq!(cord_system.joints, vec![10, 11]);
}

#[test]
fn test_cord_speeds() {
    let retraction_speed = RETRACTION_SPEED;
    let extension_speed = EXTENSION_SPEED;

    assert_eq!(retraction_speed, units(300.0));
    assert_eq!(extension_speed, units(80.0));
    assert!(retraction_speed > extension_speed);

    let speed_ratio = retraction_speed as f64 / extension_speed as f64;
    assert_eq!(speed_ratio, 3.75);
}

#[test]
fn test_continuous_extension_after_initial_extension() {
    let mut cord_system = cord(vec![1, 2], vec![10, 11], 80.0, false, Some(200));

    let player_distance = 80.0 * 0.96;
    let extension_speed = 80.0;
    let delta_time = 0.1;
    let should_retract = false;

    let first = update_cord_length(
        &mut cord_system,
        tick(should_retract, player_distance, delta_time),
        speeds(300.0, extension_speed),
    );

    assert_eq!(cord_system.current_length, units(88.0));
    assert!(!cord_system.is_retracting);
    assert_eq!(first, SegmentAdjustment::Add(2));

    let new_player_distance = 88.0 * 0.96;

    update_cord_length(
        &mut cord_system,
        tick(should_retract, new_player_distance, delta_time),
        speeds(300.0, extension_speed),
    );

    assert_eq!(cord_system.current_length, units(96.0));
    assert!(!cord_system.is_retracting);
}
