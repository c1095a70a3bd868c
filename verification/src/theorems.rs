//! What holds of the cord over whole runs of ticks and operations.

use vstd::prelude::*;
use crate::components::{CordModel, MIN_SEGMENTS};
use crate::cord_system::{
    larger, length_step, target_segments, CordInput, CordSpeeds, NewSegment,
};
use crate::geometry::Point;
use crate::geometry::{round_div, square};
use crate::trail::{
    grid_column, grid_row, tile_center, tile_center_x, tile_center_y, trail_step, TRAIL_EPSILON,
};

verus! {

/// The cord after a run of ticks, oldest input first.
pub open spec fn run_ticks(start: CordModel, inputs: Seq<CordInput>, speeds: CordSpeeds) -> CordModel
    decreases inputs.len(),
{
    if inputs.len() == 0 {
        start
    } else {
        run_ticks(start, inputs.drop_last(), speeds).tick(inputs.last(), speeds)
    }
}

/// The chain after a run of segment removals; `joints[i]` is the replacement
/// joint handed to removal `i`.
pub open spec fn run_removals(start: CordModel, joints: Seq<u64>) -> CordModel
    decreases joints.len(),
{
    if joints.len() == 0 {
        start
    } else {
        run_removals(start, joints.drop_last()).remove_segment(joints.last())
    }
}

/// Every input holds retract and lasts `dt_ms` milliseconds.
pub open spec fn retract_held_throughout(inputs: Seq<CordInput>, dt_ms: u32) -> bool {
    forall|i: int|
        0 <= i < inputs.len() ==> (#[trigger] inputs[i]).retract_held && inputs[i].dt_ms == dt_ms
}

/// Number of ticks of `step` each that bring the cord down to its minimum
/// length: the excess over the minimum divided by the step, rounded up.
pub open spec fn ticks_to_minimum(cord: CordModel, step: int) -> int {
    (cord.current_length - cord.min_length + step - 1) / step
}

/// A step is never negative.
pub proof fn lemma_length_step_nonnegative(speed: u32, dt_ms: u32)
    ensures
        length_step(speed as int, dt_ms as int) >= 0,
{
    assert(speed as int * dt_ms as int >= 0) by (nonlinear_arith)
        requires
            speed >= 0,
            dt_ms >= 0,
    ;
}

/// A tick changes nothing but the length and the retracting flag, and keeps
/// the length between the two limits.
pub proof fn theorem_tick_keeps_length_in_bounds(
    cord: CordModel,
    input: CordInput,
    speeds: CordSpeeds,
)
    requires
        cord.length_in_bounds(),
    ensures
        cord.tick(input, speeds).length_in_bounds(),
        cord.tick(input, speeds).min_length == cord.min_length,
        cord.tick(input, speeds).max_length == cord.max_length,
        cord.tick(input, speeds).attached_pole == cord.attached_pole,
{
    lemma_length_step_nonnegative(speeds.retraction, input.dt_ms);
    lemma_length_step_nonnegative(speeds.extension, input.dt_ms);
}

/// After any run of ticks, whatever the inputs, the length lies between the
/// minimum and the maximum length.
pub proof fn theorem_length_stays_in_bounds(
    start: CordModel,
    inputs: Seq<CordInput>,
    speeds: CordSpeeds,
)
    requires
        start.length_in_bounds(),
    ensures
        run_ticks(start, inputs, speeds).length_in_bounds(),
        run_ticks(start, inputs, speeds).min_length == start.min_length,
        run_ticks(start, inputs, speeds).max_length == start.max_length,
        run_ticks(start, inputs, speeds).attached_pole == start.attached_pole,
    decreases inputs.len(),
{
    if inputs.len() > 0 {
        theorem_length_stays_in_bounds(start, inputs.drop_last(), speeds);
        theorem_tick_keeps_length_in_bounds(
            run_ticks(start, inputs.drop_last(), speeds),
            inputs.last(),
            speeds,
        );
    }
}

/// Fewer ticks than the rounded-up quotient do not cover the excess.
proof fn lemma_before_last_tick(excess: int, step: int, ticks: int)
    by (nonlinear_arith)
    requires
        excess >= 0,
        step > 0,
        0 <= ticks < (excess + step - 1) / step,
    ensures
        ticks * step < excess,
{
}

/// As many ticks as the rounded-up quotient cover the excess.
proof fn lemma_at_last_tick(excess: int, step: int)
    by (nonlinear_arith)
    requires
        excess >= 0,
        step > 0,
    ensures
        ((excess + step - 1) / step) * step >= excess,
{
}

/// With retract held on an attached cord, tick after tick of the same
/// duration, the length falls by one step per tick and stops exactly at the
/// minimum length: after `n` ticks, `n` no more than the excess over the
/// minimum divided by the step and rounded up, it is the start length less
/// `n` steps, or the minimum where that would be lower. It never rises on
/// the way, never drops below the minimum, and after the full count of
/// ticks it is the minimum.
pub proof fn theorem_retraction_converges(
    start: CordModel,
    inputs: Seq<CordInput>,
    speeds: CordSpeeds,
    dt_ms: u32,
)
    requires
        start.length_in_bounds(),
        start.attached_pole is Some,
        retract_held_throughout(inputs, dt_ms),
        length_step(speeds.retraction as int, dt_ms as int) > 0,
        inputs.len() <= ticks_to_minimum(start, length_step(speeds.retraction as int, dt_ms as int)),
    ensures
        run_ticks(start, inputs, speeds).current_length == larger(
            start.current_length - inputs.len() * length_step(
                speeds.retraction as int,
                dt_ms as int,
            ),
            start.min_length,
        ),
        run_ticks(start, inputs, speeds).current_length >= start.min_length,
        inputs.len() > 0 ==> run_ticks(start, inputs, speeds).current_length < run_ticks(
            start,
            inputs.drop_last(),
            speeds,
        ).current_length,
        inputs.len() == ticks_to_minimum(
            start,
            length_step(speeds.retraction as int, dt_ms as int),
        ) ==> run_ticks(start, inputs, speeds).current_length == start.min_length,
    decreases inputs.len(),
{
    let step = length_step(speeds.retraction as int, dt_ms as int);
    let excess = start.current_length - start.min_length;
    let n = inputs.len() as int;
    if n > 0 {
        let earlier = inputs.drop_last();
        assert(retract_held_throughout(earlier, dt_ms)) by {
            assert forall|i: int| 0 <= i < earlier.len() implies (#[trigger] earlier[i]).retract_held
                && earlier[i].dt_ms == dt_ms by {
                assert(earlier[i] == inputs[i]);
            }
        }
        theorem_retraction_converges(start, earlier, speeds, dt_ms);
        theorem_length_stays_in_bounds(start, earlier, speeds);
        lemma_before_last_tick(excess, step, n - 1);
        let before = run_ticks(start, earlier, speeds);
        assert((n - 1) * step + step == n * step) by (nonlinear_arith);
        assert(before.current_length == start.current_length - (n - 1) * step);
        assert(before.retracts(inputs.last()));
    }
    lemma_at_last_tick(excess, step);
}

/// Where speed times duration is a whole number of thousandths, so that the
/// step is exact, the count of ticks to the minimum is the excess over the
/// minimum divided by the speed and by the duration of a tick, rounded up.
pub proof fn theorem_tick_count_in_real_time(cord: CordModel, speed: u32, dt_ms: u32)
    requires
        cord.length_in_bounds(),
        length_step(speed as int, dt_ms as int) > 0,
        (speed * dt_ms) % 1000 == 0,
    ensures
        ticks_to_minimum(cord, length_step(speed as int, dt_ms as int)) == ((cord.current_length
            - cord.min_length) * 1000 + speed * dt_ms - 1) / (speed * dt_ms),
{
    let step = length_step(speed as int, dt_ms as int);
    let excess = cord.current_length - cord.min_length;
    let whole = speed * dt_ms;
    let ticks = ticks_to_minimum(cord, step);
    assert(whole == 1000 * step);
    assert(ticks >= 0) by (nonlinear_arith)
        requires
            ticks == (excess + step - 1) / step,
            excess >= 0,
            step > 0,
    ;
    if ticks > 0 {
        lemma_before_last_tick(excess, step, ticks - 1);
    }
    lemma_at_last_tick(excess, step);
    let rest = excess * 1000 + whole - 1 - ticks * whole;
    assert(0 <= rest < whole) by (nonlinear_arith)
        requires
            rest == excess * 1000 + whole - 1 - ticks * whole,
            whole == 1000 * step,
            ticks * step >= excess,
            ticks == 0 || (ticks - 1) * step < excess,
            excess >= 0,
            step > 0,
            ticks >= 0,
    ;
    vstd::arithmetic::div_mod::lemma_fundamental_div_mod_converse(
        excess * 1000 + whole - 1,
        whole,
        ticks,
        rest,
    );
}

/// While the cord is attached to no pole, no run of ticks changes its
/// length, whatever the player's distance and input.
pub proof fn theorem_no_length_change_while_detached(
    start: CordModel,
    inputs: Seq<CordInput>,
    speeds: CordSpeeds,
)
    requires
        start.attached_pole is None,
    ensures
        run_ticks(start, inputs, speeds).current_length == start.current_length,
        run_ticks(start, inputs, speeds).attached_pole is None,
    decreases inputs.len(),
{
    if inputs.len() > 0 {
        theorem_no_length_change_while_detached(start, inputs.drop_last(), speeds);
    }
}

/// A chain of at least two segments keeps at least two through any run of
/// removals, and one of exactly two keeps both.
pub proof fn theorem_segment_floor(start: CordModel, joints: Seq<u64>)
    requires
        start.segments.len() >= MIN_SEGMENTS,
    ensures
        run_removals(start, joints).segments.len() >= MIN_SEGMENTS,
        run_removals(start, joints).segments.len() <= start.segments.len(),
        start.chain_wf() ==> run_removals(start, joints).chain_wf(),
    decreases joints.len(),
{
    if joints.len() > 0 {
        theorem_segment_floor(start, joints.drop_last());
    }
}

/// Attaching a cord that was just attached changes nothing, whichever pole
/// the second attachment names.
pub proof fn theorem_attach_is_idempotent(cord: CordModel, pole: u64, again: u64)
    ensures
        cord.attach(pole).attach(again) == cord.attach(pole),
        cord.attach(pole).attach(pole) == cord.attach(pole),
{
}

/// A step forward onto a new tile followed at once by a step back onto the
/// tile before it leaves the trail exactly as it was: the same waypoints in
/// the same order.
pub proof fn theorem_backtrack_restores_trail(trail: Seq<Point>, forward: Point, pole_tile: Point)
    requires
        trail.len() >= 1,
        trail_step(trail, forward, pole_tile) == trail.push(forward),
    ensures
        trail_step(trail_step(trail, forward, pole_tile), trail.last(), pole_tile) == trail,
{
    let ahead = trail.push(forward);
    assert(ahead[ahead.len() - 2] == trail.last());
    assert(trail.last().dist_sq(trail.last()) == 0) by (nonlinear_arith)
        requires
            trail.last().dist_sq(trail.last()) == (trail.last().x - trail.last().x) * (
            trail.last().x - trail.last().x) + (trail.last().y - trail.last().y) * (trail.last().y
                - trail.last().y),
    ;
    assert(ahead.drop_last() =~= trail);
}

/// A trail that is empty or starts on the pole's tile starts on the pole's
/// tile after any step, and is never empty again.
pub proof fn theorem_trail_starts_at_pole(trail: Seq<Point>, player_tile: Point, pole_tile: Point)
    requires
        trail.len() == 0 || trail[0] == pole_tile,
    ensures
        trail_step(trail, player_tile, pole_tile).len() >= 1,
        trail_step(trail, player_tile, pole_tile)[0] == pole_tile,
{
}

/// A step changes the number of waypoints by at most one.
pub proof fn theorem_trail_moves_one_waypoint(trail: Seq<Point>, player_tile: Point, pole_tile: Point)
    ensures
        trail.len() - 1 <= trail_step(trail, player_tile, pole_tile).len() <= trail.len() + 1,
{
}

/// No waypoint lies on the tile of the waypoint before it.
pub open spec fn no_tile_twice_in_a_row(trail: Seq<Point>) -> bool {
    forall|i: int|
        0 < i < trail.len() ==> (#[trigger] trail[i]).dist_sq(trail[i - 1]) > square(
            TRAIL_EPSILON as int,
        )
}

/// A trail that never holds a tile twice in a row does not come to hold
/// one by a step.
pub proof fn theorem_trail_never_repeats_a_tile(
    trail: Seq<Point>,
    player_tile: Point,
    pole_tile: Point,
)
    requires
        no_tile_twice_in_a_row(trail),
    ensures
        no_tile_twice_in_a_row(trail_step(trail, player_tile, pole_tile)),
{
    let next = trail_step(trail, player_tile, pole_tile);
    assert forall|i: int| 0 < i < next.len() implies (#[trigger] next[i]).dist_sq(next[i - 1])
        > square(TRAIL_EPSILON as int) by {
        if i < trail.len() {
            assert(next[i] == trail[i]);
        }
    }
}

/// In a well-formed chain there is one joint for each segment, and one
/// more while the cord hangs on a pole by an anchor joint.
pub proof fn theorem_joints_follow_segments(cord: CordModel)
    requires
        cord.chain_wf(),
    ensures
        cord.anchor_joint is Some ==> cord.joint_count() == cord.segments.len() + 1,
        cord.anchor_joint is None ==> cord.joint_count() == cord.segments.len(),
        cord.attached_pole is None ==> cord.joint_count() == cord.segments.len(),
{
}

/// A rounded half and a rounded quarter miss the exact ones by half a
/// step at most.
proof fn lemma_half_and_quarter_error(n: int)
    ensures
        -1 <= 2 * round_div(n, 2) - n <= 1,
        -2 <= 4 * round_div(n, 4) - n <= 2,
{
    if n >= 0 {
        assert(round_div(n, 2) == (2 * n + 2) / 4);
        assert(round_div(n, 4) == (2 * n + 4) / 8);
    } else {
        assert(round_div(n, 2) == -((2 * (-n) + 2) / 4));
        assert(round_div(n, 4) == -((2 * (-n) + 4) / 8));
    }
}

/// A dividend within one of a multiple of the divisor rounds to that
/// multiple, on divisors from three on.
proof fn lemma_round_div_near_multiple(q: int, d: int, e: int)
    by (nonlinear_arith)
    requires
        d >= 3,
        -1 <= e <= 1,
    ensures
        round_div(q * d + e, d) == q,
{
}

/// The centre of a tile lies on that tile: on tiles at least three
/// thousandths wide, the centre of tile `(column, row)` has the grid
/// indices `(column, row)` again.
pub proof fn theorem_tile_center_lies_on_its_tile(column: int, row: int, tile: int)
    requires
        tile >= 3,
    ensures
        grid_column(
            tile_center_x(column, row, tile),
            tile_center_y(column, row, tile),
            tile,
            0,
        ) == column,
        grid_row(tile_center_x(column, row, tile), tile_center_y(column, row, tile), tile, 0)
            == row,
{
    let across = (column - row) * tile;
    let along = (column + row) * tile;
    let x = tile_center_x(column, row, tile);
    let y = tile_center_y(column, row, tile);
    lemma_half_and_quarter_error(across);
    lemma_half_and_quarter_error(along);
    assert(across + along == 2 * (column * tile) && along - across == 2 * (row * tile))
        by (nonlinear_arith)
        requires
            across == (column - row) * tile,
            along == (column + row) * tile,
    ;
    let e = x + 2 * y - column * tile;
    let f = 2 * y - x - row * tile;
    assert(-1 <= e <= 1);
    assert(-1 <= f <= 1);
    lemma_round_div_near_multiple(column, tile, e);
    lemma_round_div_near_multiple(row, tile, f);
}

/// Snapping twice is snapping once: on tiles at least three thousandths
/// wide and a ground plane at height zero, a snapped position snaps to
/// itself. A player that stands still on a tile therefore never gives a new
/// waypoint.
pub proof fn theorem_snapping_is_idempotent(world_pos: Point, center: Point, tile: int)
    requires
        tile >= 3,
        (center.x as int, center.y as int) == tile_center(world_pos, tile, 0),
    ensures
        tile_center(center, tile, 0) == (center.x as int, center.y as int),
{
    let column = grid_column(world_pos.x as int, world_pos.y as int, tile, 0);
    let row = grid_row(world_pos.x as int, world_pos.y as int, tile, 0);
    theorem_tile_center_lies_on_its_tile(column, row, tile);
}

/// With a replacement joint for every segment above its floor, a
/// well-formed chain shrinks exactly to its floor: the whole segments that
/// fit into the cord's length, and two at least.
pub proof fn theorem_shrinking_reaches_the_floor(cord: CordModel, joints: Seq<u64>)
    requires
        cord.chain_wf(),
        cord.segments.len() >= cord.segment_floor(),
        joints.len() >= cord.segments.len() - cord.segment_floor(),
    ensures
        cord.shrunk(joints).segments.len() == cord.segment_floor(),
        cord.shrunk(joints).chain_wf(),
        cord.shed(joints).len() == cord.segments.len() - cord.segment_floor(),
    decreases joints.len(),
{
    if joints.len() > 0 && cord.sheds() {
        let next = cord.remove_segment(joints[0]);
        assert(next.segment_floor() == cord.segment_floor());
        theorem_shrinking_reaches_the_floor(next, joints.skip(1));
    }
}

/// With a new segment for every one that is missing, a chain grows
/// exactly to the whole segments that fit into the cord's length; a chain
/// that holds as many already stays as it is.
pub proof fn theorem_growing_reaches_the_target(cord: CordModel, parts: Seq<NewSegment>)
    requires
        parts.len() >= target_segments(cord.current_length, cord.segment_length)
            - cord.segments.len(),
    ensures
        cord.grown(parts).segments.len() == larger(
            cord.segments.len() as int,
            target_segments(cord.current_length, cord.segment_length),
        ),
        cord.chain_wf() ==> cord.grown(parts).chain_wf(),
    decreases parts.len(),
{
    if parts.len() > 0 && cord.takes() {
        let next = cord.add_segment(parts[0].body, parts[0].link_joint, parts[0].player_joint);
        theorem_growing_reaches_the_target(next, parts.skip(1));
    }
}

} // verus!
