//! Where the next body of the chain goes, and how far its joints give.

use vstd::prelude::*;
use crate::geometry::{extend_toward, point_toward, Point};

verus! {

/// Give of a joint between two segments, in percent of the segment length.
pub const LINK_TOLERANCE_PERCENT: u64 = 2;

/// Give of the joints at the two ends of the chain, in percent of the
/// segment length.
pub const END_TOLERANCE_PERCENT: u64 = 10;

/// Which bodies a joint links.
#[derive(Clone, Copy, Debug, PartialEq, Eq, Structural)]
pub enum JointKind {
    /// Two neighbouring segments.
    Link,
    /// The pole and the first segment, or the last segment and the player.
    End,
}

/// Shortest and longest distance a joint allows.
#[derive(Clone, Copy, Debug, PartialEq, Eq, Structural)]
pub struct JointLimits {
    pub min: u64,
    pub max: u64,
}

/// Give of a joint of the given kind, in percent.
pub open spec fn tolerance_percent(kind: JointKind) -> int {
    match kind {
        JointKind::Link => LINK_TOLERANCE_PERCENT as int,
        JointKind::End => END_TOLERANCE_PERCENT as int,
    }
}

/// Limits of a joint of the given kind on a chain of segments
/// `segment_length` long: the segment length less and plus the joint's
/// give, each rounded down.
pub open spec fn joint_limits_spec(segment_length: int, kind: JointKind) -> JointLimits {
    JointLimits {
        min: (segment_length * (100 - tolerance_percent(kind)) / 100) as u64,
        max: (segment_length * (100 + tolerance_percent(kind)) / 100) as u64,
    }
}

/// Limits of a joint of the given kind.
pub fn joint_limits(segment_length: u32, kind: JointKind) -> (limits: JointLimits)
    ensures
        limits == joint_limits_spec(segment_length as int, kind),
        limits.min <= segment_length <= limits.max,
{
    let length: u64 = segment_length as u64;
    assert(length * (100 - LINK_TOLERANCE_PERCENT) == length * 98);
    assert(length * (100 + LINK_TOLERANCE_PERCENT) == length * 102);
    assert(length * (100 - END_TOLERANCE_PERCENT) == length * 90);
    assert(length * (100 + END_TOLERANCE_PERCENT) == length * 110);
    match kind {
        JointKind::Link => JointLimits {
            min: length * (100 - LINK_TOLERANCE_PERCENT) / 100,
            max: length * (100 + LINK_TOLERANCE_PERCENT) / 100,
        },
        JointKind::End => JointLimits {
            min: length * (100 - END_TOLERANCE_PERCENT) / 100,
            max: length * (100 + END_TOLERANCE_PERCENT) / 100,
        },
    }
}

/// The joints between segments hold tighter than those at the ends.
pub proof fn theorem_links_are_tighter(segment_length: u32)
    ensures
        joint_limits_spec(segment_length as int, JointKind::End).min <= joint_limits_spec(
            segment_length as int,
            JointKind::Link,
        ).min,
        joint_limits_spec(segment_length as int, JointKind::Link).max <= joint_limits_spec(
            segment_length as int,
            JointKind::End,
        ).max,
{
    let length = segment_length as int;
    assert(tolerance_percent(JointKind::Link) == 2);
    assert(tolerance_percent(JointKind::End) == 10);
    assert(0 <= length * 90 / 100 <= length * 98 / 100);
    assert(length * 102 / 100 <= length * 110 / 100 < 0x1_0000_0000_0000);
}

/// Where the next segment goes: one segment length beyond the last
/// segment, in the direction of `toward`. Where the two coincide the
/// direction is zero and the new segment lies on the last one.
pub fn next_segment_position(last_segment: Point, toward: Point, segment_length: u32) -> (position:
    Point)
    requires
        last_segment.in_world(),
        toward.in_world(),
    ensures
        (position.x as int, position.y as int) == point_toward(
            last_segment,
            toward,
            segment_length as int,
        ),
        last_segment == toward ==> position == last_segment,
{
    extend_toward(last_segment, toward, segment_length)
}

} // verus!
