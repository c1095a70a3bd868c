use balthazar::anchors::{find_closest_pole, find_closest_pole_index, AnchorPoint, AnchorRegistry};
use balthazar::cord_system::{
    attach_cord_to_pole, cord_attachment_wrapper, disconnect_cord_from_pole,
    handle_cord_attachment, record_anchor_joint, AttachmentLink, AttachmentOutcome,
};
use balthazar::{AttachmentPoint, CordSystem, Point, SystemToggles};

fn at(x: f64, y: f64) -> Point {
    Point { x: (x * 1000.0).round() as i64, y: (y * 1000.0).round() as i64 }
}

fn pole(entity: u64, x: f64, y: f64) -> AnchorPoint {
    AnchorPoint { entity, position: at(x, y) }
}

fn free_cord() -> CordSystem {
    let mut cord = CordSystem::new(100, 1, 2, 10, 11, 50_000, 150_000, 20_000, 8_000, 100_000);
    cord.current_length = 80_000;
    cord
}

fn same_cord(a: &CordSystem, b: &CordSystem) -> bool {
    a.segments == b.segments
        && a.joints == b.joints
        && a.anchor_joint == b.anchor_joint
        && a.visual_meshes == b.visual_meshes
        && a.max_length == b.max_length
        && a.min_length == b.min_length
        && a.current_length == b.current_length
        && a.segment_length == b.segment_length
        && a.segment_size == b.segment_size
        && a.player_entity == b.player_entity
        && a.is_retracting == b.is_retracting
        && a.attached_pole == b.attached_pole
        && a.attachment_range == b.attachment_range
        && a.trail_path == b.trail_path
        && a.min_trail_segment_distance == b.min_trail_segment_distance
}

#[test]
fn nearest_pole_in_range_is_chosen() {
    let poles = vec![pole(1, 90.0, 0.0), pole(2, 0.0, 40.0), pole(3, -60.0, 0.0)];
    assert_eq!(find_closest_pole(at(0.0, 0.0), &poles, 100_000), Some(poles[1]));
    assert_eq!(find_closest_pole_index(at(0.0, 0.0), &poles, 100_000), Some(1));
    assert_eq!(find_closest_pole(at(-50.0, 0.0), &poles, 100_000), Some(poles[2]));
}

#[test]
fn equally_near_poles_give_the_first() {
    let poles = vec![pole(7, 200.0, 0.0), pole(8, 0.0, 30.0), pole(9, 30.0, 0.0), pole(5, -30.0, 0.0)];
    assert_eq!(find_closest_pole(at(0.0, 0.0), &poles, 100_000), Some(poles[1]));
    assert_eq!(find_closest_pole_index(at(0.0, 0.0), &poles, 100_000), Some(1));
}

#[test]
fn pole_exactly_at_range_is_in_range() {
    let poles = vec![pole(1, 60.0, 80.0)];
    assert_eq!(find_closest_pole(at(0.0, 0.0), &poles, 100_000), Some(poles[0]));
    assert_eq!(find_closest_pole(at(0.0, 0.0), &poles, 99_999), None);
    assert_eq!(find_closest_pole(at(0.0, 0.0), &vec![], 100_000), None);
}

#[test]
fn attach_command_with_no_pole_in_range_changes_nothing() {
    let mut cord = free_cord();
    let before = cord.clone();
    let poles = vec![pole(1, 200.0, 0.0), pole(2, 0.0, 100.001)];

    let outcome = handle_cord_attachment(&mut cord, true, Some(at(0.0, 0.0)), &poles);

    assert_eq!(outcome, AttachmentOutcome::NoPoleInRange);
    assert_eq!(cord.attached_pole, None);
    assert_eq!(cord.anchor_joint, None);
    assert!(cord.trail_path.is_empty());
    assert!(same_cord(&cord, &before));
}

#[test]
fn attach_command_toggles_between_free_and_attached() {
    let mut cord = free_cord();
    cord.trail_path = vec![at(1.0, 1.0)];
    let poles = vec![pole(1, 90.0, 0.0), pole(2, 0.0, 40.0)];

    let attached = handle_cord_attachment(&mut cord, true, Some(at(0.0, 0.0)), &poles);
    assert_eq!(
        attached,
        AttachmentOutcome::Attached {
            link: AttachmentLink { player: 100, anchor: 2 },
            pole: poles[1],
        }
    );
    assert_eq!(cord.attached_pole, Some(2));
    assert!(cord.trail_path.is_empty());

    cord.anchor_joint = Some(77);
    cord.trail_path = vec![at(0.0, 24.0), at(32.0, 40.0)];
    let detached = handle_cord_attachment(&mut cord, true, Some(at(500.0, 500.0)), &poles);
    assert_eq!(
        detached,
        AttachmentOutcome::Detached {
            link: AttachmentLink { player: 100, anchor: 2 },
            released_joint: Some(77),
        }
    );
    assert_eq!(cord.attached_pole, None);
    assert_eq!(cord.anchor_joint, None);
    assert!(cord.trail_path.is_empty());
}

#[test]
fn attach_command_needs_a_press_and_a_player() {
    let poles = vec![pole(1, 10.0, 0.0)];
    let mut cord = free_cord();
    let before = cord.clone();

    assert_eq!(
        handle_cord_attachment(&mut cord, false, Some(at(0.0, 0.0)), &poles),
        AttachmentOutcome::Ignored
    );
    assert!(same_cord(&cord, &before));
    assert_eq!(handle_cord_attachment(&mut cord, true, None, &poles), AttachmentOutcome::Ignored);
    assert!(same_cord(&cord, &before));
}

#[test]
fn attach_command_is_ignored_while_the_cord_subsystem_is_off() {
    let poles = vec![pole(1, 10.0, 0.0)];
    let mut cord = free_cord();
    let off = SystemToggles { cord_systems: false, ..SystemToggles::new() };

    let outcome = cord_attachment_wrapper(&mut cord, true, Some(at(0.0, 0.0)), &poles, &off);
    assert_eq!(outcome, AttachmentOutcome::Ignored);
    assert_eq!(cord.attached_pole, None);

    let outcome =
        cord_attachment_wrapper(&mut cord, true, Some(at(0.0, 0.0)), &poles, &SystemToggles::new());
    assert_eq!(
        outcome,
        AttachmentOutcome::Attached {
            link: AttachmentLink { player: 100, anchor: 1 },
            pole: poles[0],
        }
    );
    assert_eq!(cord.attached_pole, Some(1));
}

#[test]
fn attaching_twice_is_a_no_op_the_second_time() {
    let mut cord = free_cord();
    attach_cord_to_pole(&mut cord, 200);
    cord.trail_path = vec![at(0.0, -16.0), at(32.0, 0.0)];
    let once = cord.clone();

    attach_cord_to_pole(&mut cord, 200);
    assert!(same_cord(&cord, &once));

    // Another pole does not take the cord over either.
    attach_cord_to_pole(&mut cord, 201);
    assert!(same_cord(&cord, &once));
    assert_eq!(cord.attached_pole, Some(200));
}

#[test]
fn disconnecting_frees_the_cord_and_hands_back_the_anchor_joint() {
    let mut cord = free_cord();
    attach_cord_to_pole(&mut cord, 200);
    cord.anchor_joint = Some(5);
    cord.trail_path = vec![at(0.0, -16.0)];

    assert_eq!(disconnect_cord_from_pole(&mut cord), Some(5));
    assert_eq!(cord.attached_pole, None);
    assert_eq!(cord.anchor_joint, None);
    assert!(cord.trail_path.is_empty());
    assert!(cord.is_wf());

    assert_eq!(disconnect_cord_from_pole(&mut cord), None);
    assert_eq!(cord.attached_pole, None);
}

#[test]
fn registry_lists_the_anchors_in_range_in_order() {
    let registry =
        AnchorRegistry::new(vec![pole(1, 90.0, 0.0), pole(2, 300.0, 0.0), pole(3, 0.0, -100.0)]);
    let found = registry.find_anchors_in_range(at(0.0, 0.0), 100_000);
    assert_eq!(found, vec![pole(1, 90.0, 0.0), pole(3, 0.0, -100.0)]);
    assert!(registry.find_anchors_in_range(at(0.0, 0.0), 10_000).is_empty());
}

#[test]
fn attachment_points_are_made_once_for_each_pole() {
    let mut registry = AnchorRegistry::new(vec![pole(1, 0.0, 0.0), pole(2, 50.0, 0.0)]);
    assert_eq!(registry.attachment_point_for(1), None);

    let first = registry.ensure_attachment_point(1, 900);
    assert_eq!(first, AttachmentPoint { entity: 900, parent_pole: 1 });
    assert_eq!(registry.attachment_points.len(), 1);

    // A second request gives the same point and makes none.
    let again = registry.ensure_attachment_point(1, 901);
    assert_eq!(again, first);
    assert_eq!(registry.attachment_points.len(), 1);

    let other = registry.ensure_attachment_point(2, 902);
    assert_eq!(other, AttachmentPoint { entity: 902, parent_pole: 2 });
    assert_eq!(registry.attachment_points, vec![first, other]);
    assert_eq!(registry.attachment_point_for(2), Some(other));
    assert_eq!(registry.attachment_point_for(3), None);
}

#[test]
fn anchor_joint_is_recorded_once_on_an_attached_cord() {
    let mut cord = free_cord();
    // A free cord takes no anchor joint.
    assert!(!record_anchor_joint(&mut cord, 70));
    assert_eq!(cord.anchor_joint, None);

    attach_cord_to_pole(&mut cord, 200);
    assert!(record_anchor_joint(&mut cord, 71));
    assert_eq!(cord.anchor_joint, Some(71));
    assert!(cord.is_wf());
    // Three joints now: one to the pole, one between the segments, one to
    // the player.
    assert_eq!(cord.joints.len() + 1, cord.segments.len() + 1);

    // A second joint does not take the place of the first.
    assert!(!record_anchor_joint(&mut cord, 72));
    assert_eq!(cord.anchor_joint, Some(71));

    assert_eq!(disconnect_cord_from_pole(&mut cord), Some(71));
    assert_eq!(cord.anchor_joint, None);
}
