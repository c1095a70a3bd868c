//! The cord between the player and a pole: how its length follows the
//! player's input, and how its chain of bodies grows and shrinks.

use vstd::prelude::*;
use crate::anchors::{closest_pole, find_closest_pole, AnchorPoint};
use crate::components::{CordModel, CordSystem, SystemToggles, MIN_SEGMENTS};
use crate::geometry::{is_taut, taut, Point};

verus! {

/// Speed at which a held retract key shortens the cord, in thousandths of a
/// unit per second.
pub const RETRACTION_SPEED: u32 = 300_000;

/// Speed at which a taut cord pays out, in thousandths of a unit per second.
pub const EXTENSION_SPEED: u32 = 80_000;

/// What one tick feeds into the cord.
#[derive(Clone, Copy, Debug, PartialEq, Eq)]
pub struct CordInput {
    /// The retract key is held.
    pub retract_held: bool,
    pub player_pos: Point,
    /// Position of the attached pole, where it could be looked up.
    pub pole_pos: Option<Point>,
    /// Duration of the tick in milliseconds.
    pub dt_ms: u32,
}

/// Retraction and extension speeds, in thousandths of a unit per second.
#[derive(Clone, Copy, Debug, PartialEq, Eq, Structural)]
pub struct CordSpeeds {
    pub retraction: u32,
    pub extension: u32,
}

/// What a tick asks of the chain of bodies.
#[derive(Clone, Copy, Debug, PartialEq, Eq, Structural)]
pub enum SegmentAdjustment {
    Keep,
    /// Remove this many segments from the player's end.
    Remove(usize),
    /// Add this many segments at the player's end.
    Add(usize),
}

/// Length covered at `speed` during `dt_ms` milliseconds, rounded down.
pub open spec fn length_step(speed: int, dt_ms: int) -> int {
    (speed * dt_ms) / 1000
}

/// Number of whole segments that fit into `current_length`.
pub open spec fn target_segments(current_length: int, segment_length: int) -> int {
    current_length / segment_length
}

/// The larger of two integers.
pub open spec fn larger(a: int, b: int) -> int {
    if a >= b {
        a
    } else {
        b
    }
}

/// The smaller of two integers.
pub open spec fn smaller(a: int, b: int) -> int {
    if a <= b {
        a
    } else {
        b
    }
}

impl CordModel {
    /// This tick shortens the cord: retract is held, the cord is attached
    /// and longer than its minimum.
    pub open spec fn retracts(self, input: CordInput) -> bool {
        input.retract_held && self.attached_pole is Some && self.current_length > self.min_length
    }

    /// This tick lengthens the cord: it does not shorten it, the cord is
    /// attached to a pole whose position is known, the player pulls it taut
    /// and it is shorter than its maximum.
    pub open spec fn extends(self, input: CordInput) -> bool {
        &&& !self.retracts(input)
        &&& self.attached_pole is Some
        &&& input.pole_pos matches Some(pole) && taut(
            input.player_pos.dist_sq(pole),
            self.current_length,
        )
        &&& self.current_length < self.max_length
    }

    /// Length after one tick.
    pub open spec fn next_length(self, input: CordInput, speeds: CordSpeeds) -> int {
        if self.retracts(input) {
            larger(
                self.current_length - length_step(speeds.retraction as int, input.dt_ms as int),
                self.min_length,
            )
        } else if self.extends(input) {
            smaller(
                self.current_length + length_step(speeds.extension as int, input.dt_ms as int),
                self.max_length,
            )
        } else {
            self.current_length
        }
    }

    /// The cord after one tick: only the length and the retracting flag
    /// change.
    pub open spec fn tick(self, input: CordInput, speeds: CordSpeeds) -> CordModel {
        CordModel {
            current_length: self.next_length(input, speeds),
            is_retracting: self.retracts(input),
            ..self
        }
    }

    /// What the chain owes after the tick: on retraction, the segments
    /// beyond the target count (never fewer than two remain); on extension,
    /// the segments missing up to the target count.
    pub open spec fn adjustment(self, input: CordInput, speeds: CordSpeeds) -> SegmentAdjustment {
        let target = target_segments(self.next_length(input, speeds), self.segment_length);
        let floor = larger(target, MIN_SEGMENTS as int);
        if self.retracts(input) && self.segments.len() > floor {
            SegmentAdjustment::Remove((self.segments.len() - floor) as usize)
        } else if self.extends(input) && self.segments.len() < target {
            SegmentAdjustment::Add((target - self.segments.len()) as usize)
        } else {
            SegmentAdjustment::Keep
        }
    }
}

/// Length covered at `speed` during `dt_ms` milliseconds, rounded down.
pub fn compute_length_step(speed: u32, dt_ms: u32) -> (step: u64)
    ensures
        step == length_step(speed as int, dt_ms as int),
{
    assert(speed as int * dt_ms as int <= 0xffff_ffff * 0xffff_ffff) by (nonlinear_arith)
        requires
            0 <= speed <= 0xffff_ffff,
            0 <= dt_ms <= 0xffff_ffff,
    ;
    (speed as u64 * dt_ms as u64) / 1000
}

/// Number of whole segments that fit into the cord's current length.
pub fn target_segment_count(cord: &CordSystem) -> (count: usize)
    requires
        cord.segment_length > 0,
    ensures
        count == target_segments(cord@.current_length, cord@.segment_length),
{
    (cord.current_length / cord.segment_length) as usize
}

/// One tick of the length controller.
///
/// While retract is held on an attached cord above its minimum length, the
/// cord shortens by the retraction step, not below the minimum. Otherwise,
/// an attached cord that the player pulls taut lengthens by the extension
/// step, not above the maximum. A detached cord keeps its length. The
/// result says how many segments the chain has to lose or gain.
pub fn update_cord_length(cord: &mut CordSystem, input: CordInput, speeds: CordSpeeds) -> (adjustment:
    SegmentAdjustment)
    requires
        old(cord).segment_length > 0,
    ensures
        final(cord)@ == old(cord)@.tick(input, speeds),
        adjustment == old(cord)@.adjustment(input, speeds),
        old(cord)@.length_in_bounds() ==> final(cord)@.length_in_bounds(),
        old(cord)@.wf() ==> final(cord)@.wf(),
        old(cord)@.attached_pole is None ==> final(cord)@.current_length == old(cord)@.current_length,
{
    let count: usize = cord.segments.len();
    if input.retract_held && cord.attached_pole.is_some() && cord.current_length > cord.min_length {
        let step: u64 = compute_length_step(speeds.retraction, input.dt_ms);
        let room: u32 = cord.current_length - cord.min_length;
        if step >= room as u64 {
            cord.current_length = cord.min_length;
        } else {
            cord.current_length = cord.current_length - step as u32;
        }
        cord.is_retracting = true;
        let target: usize = (cord.current_length / cord.segment_length) as usize;
        let floor: usize = if target >= MIN_SEGMENTS {
            target
        } else {
            MIN_SEGMENTS
        };
        assert(final(cord)@ =~= old(cord)@.tick(input, speeds));
        if count > floor {
            SegmentAdjustment::Remove(count - floor)
        } else {
            SegmentAdjustment::Keep
        }
    } else {
        cord.is_retracting = false;
        let pulled: bool = match input.pole_pos {
            Some(pole) => cord.attached_pole.is_some() && is_taut(
                input.player_pos,
                pole,
                cord.current_length,
            ),
            None => false,
        };
        if pulled && cord.current_length < cord.max_length {
            let step: u64 = compute_length_step(speeds.extension, input.dt_ms);
            let room: u32 = cord.max_length - cord.current_length;
            if step >= room as u64 {
                cord.current_length = cord.max_length;
            } else {
                cord.current_length = cord.current_length + step as u32;
            }
            let target: usize = (cord.current_length / cord.segment_length) as usize;
            assert(final(cord)@ =~= old(cord)@.tick(input, speeds));
            if count < target {
                SegmentAdjustment::Add(target - count)
            } else {
                SegmentAdjustment::Keep
            }
        } else {
            assert(final(cord)@ =~= old(cord)@.tick(input, speeds));
            SegmentAdjustment::Keep
        }
    }
}

/// One tick of the length controller at the game's own speeds.
pub fn handle_cord_retraction(cord: &mut CordSystem, input: CordInput) -> (adjustment:
    SegmentAdjustment)
    requires
        old(cord).segment_length > 0,
    ensures
        final(cord)@ == old(cord)@.tick(input, game_speeds()),
        adjustment == old(cord)@.adjustment(input, game_speeds()),
        old(cord)@.wf() ==> final(cord)@.wf(),
{
    update_cord_length(
        cord,
        input,
        CordSpeeds { retraction: RETRACTION_SPEED, extension: EXTENSION_SPEED },
    )
}

/// The game's own speeds.
pub open spec fn game_speeds() -> CordSpeeds {
    CordSpeeds { retraction: RETRACTION_SPEED, extension: EXTENSION_SPEED }
}

/// The length controller behind its subsystem switch: with the cord
/// subsystem switched off the cord is left alone.
pub fn cord_retraction_wrapper(
    cord: &mut CordSystem,
    input: CordInput,
    toggles: &SystemToggles,
) -> (adjustment: SegmentAdjustment)
    requires
        old(cord).segment_length > 0,
    ensures
        toggles.cord_systems ==> final(cord)@ == old(cord)@.tick(input, game_speeds())
            && adjustment == old(cord)@.adjustment(input, game_speeds()),
        !toggles.cord_systems ==> final(cord)@ == old(cord)@ && adjustment
            == SegmentAdjustment::Keep,
{
    if !toggles.cord_systems {
        return SegmentAdjustment::Keep;
    }
    handle_cord_retraction(cord, input)
}

/// Handles that left the chain with a removed segment; the physics world
/// still holds them.
#[derive(Clone, Copy, Debug, PartialEq, Eq, Structural)]
pub struct RemovedSegment {
    pub body: u64,
    /// The joint that linked the body to its predecessor.
    pub link_joint: u64,
    /// The joint that linked the body to the player.
    pub player_joint: u64,
}

impl CordModel {
    /// A segment can leave the chain: more than two remain, and the chain
    /// holds the two joints that leave with it.
    pub open spec fn can_remove_segment(self) -> bool {
        self.segments.len() > MIN_SEGMENTS && self.joints.len() >= 2
    }

    /// The chain without its last segment: the last body and the two most
    /// recent joints are gone, and `replacement_joint` links the new last
    /// segment to the player. A chain that cannot lose a segment is
    /// unchanged.
    pub open spec fn remove_segment(self, replacement_joint: u64) -> CordModel {
        if self.can_remove_segment() {
            CordModel {
                segments: self.segments.drop_last(),
                joints: self.joints.drop_last().drop_last().push(replacement_joint),
                ..self
            }
        } else {
            self
        }
    }

    /// The chain with one more segment: `link_joint` takes the place of the
    /// joint that linked the last segment to the player, and `player_joint`
    /// links the new body to the player.
    pub open spec fn add_segment(self, body: u64, link_joint: u64, player_joint: u64) -> CordModel {
        CordModel {
            segments: self.segments.push(body),
            joints: if self.joints.len() > 0 {
                self.joints.drop_last().push(link_joint).push(player_joint)
            } else {
                self.joints.push(link_joint).push(player_joint)
            },
            ..self
        }
    }

    /// The cord attached to `pole`, its trail cleared. A cord that is
    /// attached already stays as it is.
    pub open spec fn attach(self, pole: u64) -> CordModel {
        if self.attached_pole is Some {
            self
        } else {
            CordModel { attached_pole: Some(pole), trail_path: Seq::empty(), ..self }
        }
    }

    /// The cord with `joint` recorded as the joint that holds it to its
    /// pole. Only an attached cord without such a joint takes one.
    pub open spec fn with_anchor_joint(self, joint: u64) -> CordModel {
        if self.attached_pole is Some && self.anchor_joint is None {
            CordModel { anchor_joint: Some(joint), ..self }
        } else {
            self
        }
    }

    /// The cord free of any pole, its trail cleared.
    pub open spec fn detach(self) -> CordModel {
        CordModel { attached_pole: None, anchor_joint: None, trail_path: Seq::empty(), ..self }
    }
}

/// Takes the last segment off the chain, unless only two are left.
///
/// On removal the result names the body and the two joints that the caller
/// has to despawn; `replacement_joint` is the joint the caller made between
/// the new last segment and the player.
pub fn remove_segment(cord: &mut CordSystem, replacement_joint: u64) -> (removed: Option<
    RemovedSegment,
>)
    ensures
        final(cord)@ == old(cord)@.remove_segment(replacement_joint),
        removed is Some == old(cord)@.can_remove_segment(),
        removed matches Some(gone) ==> {
            &&& gone.body == old(cord)@.segments.last()
            &&& gone.player_joint == old(cord)@.joints.last()
            &&& gone.link_joint == old(cord)@.joints[old(cord)@.joints.len() - 2]
        },
        old(cord)@.segments.len() >= MIN_SEGMENTS ==> final(cord)@.segments.len()
            >= MIN_SEGMENTS,
        old(cord)@.chain_wf() ==> final(cord)@.chain_wf(),
        old(cord)@.wf() ==> final(cord)@.wf(),
{
    if cord.segments.len() <= MIN_SEGMENTS || cord.joints.len() < 2 {
        return None;
    }
    let body: u64 = cord.segments.pop().unwrap();
    let player_joint: u64 = cord.joints.pop().unwrap();
    let link_joint: u64 = cord.joints.pop().unwrap();
    cord.joints.push(replacement_joint);
    assert(final(cord)@ =~= old(cord)@.remove_segment(replacement_joint));
    Some(RemovedSegment { body, link_joint, player_joint })
}

/// Appends a segment to the chain.
///
/// `body` is the new segment, `link_joint` links it to the previous last
/// segment and `player_joint` links it to the player. The result is the
/// joint that linked the previous last segment to the player, which the
/// caller has to despawn.
pub fn add_segment(cord: &mut CordSystem, body: u64, link_joint: u64, player_joint: u64) -> (replaced:
    Option<u64>)
    ensures
        final(cord)@ == old(cord)@.add_segment(body, link_joint, player_joint),
        replaced == if old(cord)@.joints.len() > 0 {
            Some(old(cord)@.joints.last())
        } else {
            None
        },
        old(cord)@.chain_wf() ==> final(cord)@.chain_wf(),
        old(cord)@.wf() ==> final(cord)@.wf(),
{
    let replaced: Option<u64> = cord.joints.pop();
    cord.segments.push(body);
    cord.joints.push(link_joint);
    cord.joints.push(player_joint);
    assert(final(cord)@ =~= old(cord)@.add_segment(body, link_joint, player_joint));
    replaced
}

/// Attaches a free cord to a pole and clears its trail. A cord that is
/// attached already is left as it is.
pub fn attach_cord_to_pole(cord_system: &mut CordSystem, attachment_entity: u64)
    ensures
        final(cord_system)@ == old(cord_system)@.attach(attachment_entity),
        old(cord_system)@.wf() ==> final(cord_system)@.wf(),
{
    if cord_system.attached_pole.is_none() {
        cord_system.attached_pole = Some(attachment_entity);
        cord_system.trail_path.clear();
    }
    assert(final(cord_system)@ =~= old(cord_system)@.attach(attachment_entity));
}

/// Records the joint that the caller made between the pole and the first
/// segment of an attached cord. A free cord, and a cord that has such a
/// joint already, is left as it is; the result says whether the joint was
/// taken.
pub fn record_anchor_joint(cord_system: &mut CordSystem, joint: u64) -> (recorded: bool)
    ensures
        final(cord_system)@ == old(cord_system)@.with_anchor_joint(joint),
        recorded == (old(cord_system)@.attached_pole is Some && old(cord_system)@.anchor_joint
            is None),
        recorded ==> final(cord_system)@.joint_count() == old(cord_system)@.joint_count() + 1,
        !recorded ==> final(cord_system)@.joint_count() == old(cord_system)@.joint_count(),
        old(cord_system)@.chain_wf() && recorded ==> final(cord_system)@.joint_count() == final(cord_system)@.segments.len() + 1,
        old(cord_system)@.wf() ==> final(cord_system)@.wf(),
{
    if cord_system.attached_pole.is_some() && cord_system.anchor_joint.is_none() {
        cord_system.anchor_joint = Some(joint);
        assert(final(cord_system)@ =~= old(cord_system)@.with_anchor_joint(joint));
        true
    } else {
        false
    }
}

/// Frees the cord and clears its trail. The result is the joint that held
/// the cord to the pole, which the caller has to despawn.
pub fn disconnect_cord_from_pole(cord_system: &mut CordSystem) -> (released: Option<u64>)
    ensures
        final(cord_system)@ == old(cord_system)@.detach(),
        released == old(cord_system)@.anchor_joint,
        final(cord_system)@.joint_count() == final(cord_system)@.joints.len(),
        old(cord_system)@.wf() ==> final(cord_system)@.wf(),
{
    let released: Option<u64> = cord_system.anchor_joint;
    cord_system.attached_pole = None;
    cord_system.anchor_joint = None;
    cord_system.trail_path.clear();
    assert(final(cord_system)@ =~= old(cord_system)@.detach());
    released
}

/// One attachment of the player's cord to a pole.
#[derive(Clone, Copy, Debug, PartialEq, Eq, Structural)]
pub struct AttachmentLink {
    pub player: u64,
    pub anchor: u64,
}

/// What an attachment command did.
#[derive(Clone, Copy, Debug, PartialEq, Eq)]
pub enum AttachmentOutcome {
    /// No command was given, or the player could not be found.
    Ignored,
    /// The link was torn down and the cord is free now; the joint that
    /// held it to the pole is left for the caller to despawn.
    Detached { link: AttachmentLink, released_joint: Option<u64> },
    /// The cord was free and this link was made.
    Attached { link: AttachmentLink, pole: AnchorPoint },
    /// The cord was free and no pole is within attachment range.
    NoPoleInRange,
}

impl CordModel {
    /// The cord after an attachment command.
    pub open spec fn toggle_attachment(
        self,
        pressed: bool,
        player_pos: Option<Point>,
        poles: Seq<AnchorPoint>,
    ) -> CordModel {
        if !pressed || player_pos is None {
            self
        } else if self.attached_pole is Some {
            self.detach()
        } else {
            match closest_pole(poles, player_pos->0, self.attachment_range) {
                Some(pole) => self.attach(pole.entity),
                None => self,
            }
        }
    }

    /// What an attachment command reports.
    pub open spec fn attachment_outcome(
        self,
        pressed: bool,
        player_pos: Option<Point>,
        poles: Seq<AnchorPoint>,
    ) -> AttachmentOutcome {
        if !pressed || player_pos is None {
            AttachmentOutcome::Ignored
        } else if self.attached_pole is Some {
            AttachmentOutcome::Detached {
                link: AttachmentLink { player: self.player_entity, anchor: self.attached_pole->0 },
                released_joint: self.anchor_joint,
            }
        } else {
            match closest_pole(poles, player_pos->0, self.attachment_range) {
                Some(pole) => AttachmentOutcome::Attached {
                    link: AttachmentLink { player: self.player_entity, anchor: pole.entity },
                    pole,
                },
                None => AttachmentOutcome::NoPoleInRange,
            }
        }
    }
}

/// Handles the attach key.
///
/// A press frees an attached cord. A press on a free cord attaches it to
/// the nearest pole within attachment range, the first of them where
/// several are equally near, and does nothing where there is none. Without
/// a press, or without a player position, nothing happens.
pub fn handle_cord_attachment(
    cord_system: &mut CordSystem,
    pressed: bool,
    player_pos: Option<Point>,
    poles: &Vec<AnchorPoint>,
) -> (outcome: AttachmentOutcome)
    ensures
        final(cord_system)@ == old(cord_system)@.toggle_attachment(pressed, player_pos, poles@),
        outcome == old(cord_system)@.attachment_outcome(pressed, player_pos, poles@),
        old(cord_system)@.wf() ==> final(cord_system)@.wf(),
{
    if !pressed {
        return AttachmentOutcome::Ignored;
    }
    match player_pos {
        None => AttachmentOutcome::Ignored,
        Some(position) => {
            let player: u64 = cord_system.player_entity;
            match cord_system.attached_pole {
                Some(anchor) => {
                    let released_joint: Option<u64> = disconnect_cord_from_pole(cord_system);
                    AttachmentOutcome::Detached {
                        link: AttachmentLink { player, anchor },
                        released_joint,
                    }
                },
                None => match find_closest_pole(position, poles, cord_system.attachment_range) {
                    Some(pole) => {
                        attach_cord_to_pole(cord_system, pole.entity);
                        AttachmentOutcome::Attached {
                            link: AttachmentLink { player, anchor: pole.entity },
                            pole,
                        }
                    },
                    None => AttachmentOutcome::NoPoleInRange,
                },
            }
        },
    }
}

/// The attach key behind its subsystem switch: with the cord subsystem
/// switched off the cord is left alone.
pub fn cord_attachment_wrapper(
    cord_system: &mut CordSystem,
    pressed: bool,
    player_pos: Option<Point>,
    poles: &Vec<AnchorPoint>,
    toggles: &SystemToggles,
) -> (outcome: AttachmentOutcome)
    ensures
        toggles.cord_systems ==> final(cord_system)@ == old(cord_system)@.toggle_attachment(
            pressed,
            player_pos,
            poles@,
        ) && outcome == old(cord_system)@.attachment_outcome(pressed, player_pos, poles@),
        !toggles.cord_systems ==> final(cord_system)@ == old(cord_system)@ && outcome
            == AttachmentOutcome::Ignored,
{
    if !toggles.cord_systems {
        return AttachmentOutcome::Ignored;
    }
    handle_cord_attachment(cord_system, pressed, player_pos, poles)
}

/// Handles of a segment that the caller made for the chain.
#[derive(Clone, Copy, Debug, PartialEq, Eq, Structural)]
pub struct NewSegment {
    pub body: u64,
    /// The joint that links the body to the segment before it.
    pub link_joint: u64,
    /// The joint that links the body to the player.
    pub player_joint: u64,
}

impl CordModel {
    /// Fewest segments the chain keeps at its current length: the whole
    /// segments that fit into it, and never fewer than two.
    pub open spec fn segment_floor(self) -> int {
        larger(target_segments(self.current_length, self.segment_length), MIN_SEGMENTS as int)
    }

    /// The chain sheds a segment: it holds more than its floor, and one can
    /// be removed.
    pub open spec fn sheds(self) -> bool {
        self.segments.len() > self.segment_floor() && self.can_remove_segment()
    }

    /// The chain takes a segment: it holds fewer than the whole segments
    /// that fit into its length.
    pub open spec fn takes(self) -> bool {
        self.segments.len() < target_segments(self.current_length, self.segment_length)
    }

    /// The chain after shedding segments down to its floor, one for each
    /// replacement joint at most.
    pub open spec fn shrunk(self, joints: Seq<u64>) -> CordModel
        decreases joints.len(),
    {
        if joints.len() == 0 || !self.sheds() {
            self
        } else {
            self.remove_segment(joints[0]).shrunk(joints.skip(1))
        }
    }

    /// The segments shed on the way to `shrunk`, in the order they went.
    pub open spec fn shed(self, joints: Seq<u64>) -> Seq<RemovedSegment>
        decreases joints.len(),
    {
        if joints.len() == 0 || !self.sheds() {
            Seq::empty()
        } else {
            seq![
                RemovedSegment {
                    body: self.segments.last(),
                    link_joint: self.joints[self.joints.len() - 2],
                    player_joint: self.joints.last(),
                },
            ] + self.remove_segment(joints[0]).shed(joints.skip(1))
        }
    }

    /// The joints replaced on the way to `grown`, in the order they went:
    /// each addition replaces the joint that linked the last segment to the
    /// player.
    pub open spec fn replaced(self, parts: Seq<NewSegment>) -> Seq<u64>
        decreases parts.len(),
    {
        if parts.len() == 0 || !self.takes() {
            Seq::empty()
        } else {
            let next = self.add_segment(parts[0].body, parts[0].link_joint, parts[0].player_joint);
            if self.joints.len() > 0 {
                seq![self.joints.last()] + next.replaced(parts.skip(1))
            } else {
                next.replaced(parts.skip(1))
            }
        }
    }

    /// The chain after taking segments up to the whole segments that fit
    /// into its length, one for each new segment at most.
    pub open spec fn grown(self, parts: Seq<NewSegment>) -> CordModel
        decreases parts.len(),
    {
        if parts.len() == 0 || !self.takes() {
            self
        } else {
            self.add_segment(parts[0].body, parts[0].link_joint, parts[0].player_joint).grown(
                parts.skip(1),
            )
        }
    }
}

/// Sheds segments until the chain is down to the whole segments that fit
/// into its length, never below two.
///
/// Each removal uses up one of `replacement_joints`, in order; the chain
/// stops early where they run out. The result lists what left the chain,
/// for the caller to despawn.
pub fn shrink_chain(cord: &mut CordSystem, replacement_joints: &Vec<u64>) -> (removed: Vec<
    RemovedSegment,
>)
    requires
        old(cord).segment_length > 0,
    ensures
        final(cord)@ == old(cord)@.shrunk(replacement_joints@),
        removed@ == old(cord)@.shed(replacement_joints@),
        old(cord)@.wf() ==> final(cord)@.wf(),
        old(cord)@.segments.len() >= MIN_SEGMENTS ==> final(cord)@.segments.len() >= MIN_SEGMENTS,
{
    let mut removed: Vec<RemovedSegment> = Vec::new();
    let target: usize = target_segment_count(cord);
    let floor: usize = if target >= MIN_SEGMENTS {
        target
    } else {
        MIN_SEGMENTS
    };
    let mut i: usize = 0;
    assert(replacement_joints@.skip(0) =~= replacement_joints@);
    while i < replacement_joints.len() && cord.segments.len() > floor && cord.joints.len() >= 2
        invariant
            i <= replacement_joints.len(),
            floor == cord@.segment_floor(),
            floor >= MIN_SEGMENTS,
            cord@.shrunk(replacement_joints@.skip(i as int)) == old(cord)@.shrunk(
                replacement_joints@,
            ),
            removed@ + cord@.shed(replacement_joints@.skip(i as int)) == old(cord)@.shed(
                replacement_joints@,
            ),
            old(cord)@.wf() ==> cord@.wf(),
            old(cord)@.segments.len() >= MIN_SEGMENTS ==> cord@.segments.len() >= MIN_SEGMENTS,
        decreases replacement_joints.len() - i,
    {
        let ghost before = cord@;
        let ghost rest = replacement_joints@.skip(i as int);
        let ghost so_far = removed@;
        assert(rest[0] == replacement_joints@[i as int]);
        assert(rest.skip(1) =~= replacement_joints@.skip(i as int + 1));
        match remove_segment(cord, replacement_joints[i]) {
            Some(gone) => {
                removed.push(gone);
            },
            None => {},
        }
        proof {
            assert(before.sheds());
            assert(before.shed(rest) == seq![removed@.last()] + cord@.shed(rest.skip(1)));
            assert(removed@ + cord@.shed(rest.skip(1)) =~= so_far + before.shed(rest));
        }
        i += 1;
    }
    proof {
        let rest = replacement_joints@.skip(i as int);
        assert(rest.len() == 0 || !cord@.sheds());
        assert(removed@ + Seq::<RemovedSegment>::empty() =~= removed@);
    }
    removed
}

/// Takes segments until the chain holds the whole segments that fit into
/// its length.
///
/// Each addition uses up one of `parts`, in order; the chain stops early
/// where they run out. The result lists the joints that the additions
/// replaced, for the caller to despawn.
pub fn grow_chain(cord: &mut CordSystem, parts: &Vec<NewSegment>) -> (replaced: Vec<u64>)
    requires
        old(cord).segment_length > 0,
    ensures
        final(cord)@ == old(cord)@.grown(parts@),
        replaced@ == old(cord)@.replaced(parts@),
        old(cord)@.wf() ==> final(cord)@.wf(),
{
    let mut replaced: Vec<u64> = Vec::new();
    let target: usize = target_segment_count(cord);
    let mut i: usize = 0;
    assert(parts@.skip(0) =~= parts@);
    while i < parts.len() && cord.segments.len() < target
        invariant
            i <= parts.len(),
            target == target_segments(cord@.current_length, cord@.segment_length),
            cord@.grown(parts@.skip(i as int)) == old(cord)@.grown(parts@),
            replaced@ + cord@.replaced(parts@.skip(i as int)) == old(cord)@.replaced(parts@),
            old(cord)@.wf() ==> cord@.wf(),
        decreases parts.len() - i,
    {
        let ghost before = cord@;
        let ghost rest = parts@.skip(i as int);
        let ghost so_far = replaced@;
        assert(rest[0] == parts@[i as int]);
        assert(rest.skip(1) =~= parts@.skip(i as int + 1));
        let part: NewSegment = parts[i];
        match add_segment(cord, part.body, part.link_joint, part.player_joint) {
            Some(joint) => {
                replaced.push(joint);
            },
            None => {},
        }
        proof {
            assert(before.takes());
            assert(replaced@ + cord@.replaced(rest.skip(1)) =~= so_far + before.replaced(rest));
        }
        i += 1;
    }
    proof {
        assert(replaced@ + Seq::<u64>::empty() =~= replaced@);
    }
    replaced
}

} // verus!
