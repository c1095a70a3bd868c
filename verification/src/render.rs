//! What to draw for a cord: one rectangle along each stretch of its path,
//! and a square cap wherever the path turns.

use vstd::prelude::*;
use crate::components::{CordModel, CordSystem};
use crate::curve::{
    in_curve_range, path_in_curve_range, sample_curve, sampled_curve, stretch_reach, CurveKind,
};
use crate::geometry::{
    axis_gap, isqrt_wide, lemma_signed_product_bound, lemma_square_monotonic,
    lemma_square_of_magnitude, path_in_world, round_div, rounded_quotient, sqrt_floor, square,
    Point,
};

verus! {

/// Width of the drawn cord, in thousandths of a unit.
pub const CORD_WIDTH: u32 = 8_000;

/// Shape of a drawn piece.
#[derive(Clone, Copy, Debug, PartialEq, Eq, Structural)]
pub enum CordMeshKind {
    /// A rectangle `length` long and `CORD_WIDTH` wide, turned into the
    /// direction of `span`.
    Stretch,
    /// A square of side `CORD_WIDTH`, not turned.
    Cap,
}

/// One piece of the drawn cord.
#[derive(Clone, Copy, Debug, PartialEq, Eq, Structural)]
pub struct CordMesh {
    pub kind: CordMeshKind,
    /// Where the centre of the piece goes.
    pub center: Point,
    /// From the start to the end of the stretch; zero for a cap.
    pub span: Point,
    /// Length of the stretch, rounded down; zero for a cap.
    pub length: u64,
}

/// What a frame has to do to the drawn cord.
#[derive(Clone, Debug)]
pub struct RenderPlan {
    /// Pieces of the last frame, to be taken down.
    pub despawn: Vec<u64>,
    /// Pieces of this frame, to be put up in this order.
    pub spawn: Vec<CordMesh>,
}

/// The point half way between `a` and `b`.
pub open spec fn midpoint(a: Point, b: Point) -> Point {
    Point { x: round_div(a.x + b.x, 2) as i64, y: round_div(a.y + b.y, 2) as i64 }
}

/// Dot product of the steps from `a` to `b` and from `b` to `c`.
pub open spec fn step_dot(a: Point, b: Point, c: Point) -> int {
    (b.x - a.x) * (c.x - b.x) + (b.y - a.y) * (c.y - b.y)
}

/// The path turns at `b` on its way from `a` to `c`: the cosine of the
/// angle between the two steps is below 0.99. A step of no length has no
/// direction and counts as a turn.
pub open spec fn turns_at(a: Point, b: Point, c: Point) -> bool {
    let dot = step_dot(a, b, c);
    dot <= 0 || 10_000 * square(dot) < 9_801 * (a.dist_sq(b) * b.dist_sq(c))
}

/// The rectangle along the stretch from `a` to `b`.
pub open spec fn stretch_mesh(a: Point, b: Point) -> CordMesh {
    CordMesh {
        kind: CordMeshKind::Stretch,
        center: midpoint(a, b),
        span: Point { x: (b.x - a.x) as i64, y: (b.y - a.y) as i64 },
        length: sqrt_floor(a.dist_sq(b)) as u64,
    }
}

/// The cap over the corner at `corner`.
pub open spec fn cap_mesh(corner: Point) -> CordMesh {
    CordMesh { kind: CordMeshKind::Cap, center: corner, span: Point { x: 0, y: 0 }, length: 0 }
}

/// The pieces for the first `stretches` stretches of `path`: for each
/// stretch its rectangle, followed by a cap over its end where the path
/// goes on from there and turns.
pub open spec fn meshes_up_to(path: Seq<Point>, stretches: int) -> Seq<CordMesh>
    decreases stretches,
{
    if stretches <= 0 {
        Seq::empty()
    } else {
        let i = stretches - 1;
        let before = meshes_up_to(path, i).push(stretch_mesh(path[i], path[i + 1]));
        if i + 2 < path.len() && turns_at(path[i], path[i + 1], path[i + 2]) {
            before.push(cap_mesh(path[i + 1]))
        } else {
            before
        }
    }
}

/// The pieces for the whole of `path`.
pub open spec fn cord_meshes(path: Seq<Point>) -> Seq<CordMesh> {
    meshes_up_to(path, path.len() - 1)
}

impl CordModel {
    /// The path that is drawn: the trail and, at its end, the player. An
    /// unattached cord, a cord without a player and a cord without a trail
    /// have none.
    pub open spec fn drawn_path(self, player_pos: Option<Point>) -> Seq<Point> {
        if self.attached_pole is Some && player_pos is Some && self.trail_path.len() > 0 {
            self.trail_path.push(player_pos->0)
        } else {
            Seq::empty()
        }
    }
}

/// The point half way between `a` and `b`.
pub fn midpoint_of(a: Point, b: Point) -> (middle: Point)
    requires
        a.in_world(),
        b.in_world(),
    ensures
        middle == midpoint(a, b),
        middle.in_world(),
{
    let x: i128 = rounded_quotient(a.x as i128 + b.x as i128, 2);
    let y: i128 = rounded_quotient(a.y as i128 + b.y as i128, 2);
    Point { x: x as i64, y: y as i64 }
}

/// Whether the path turns at `b` on its way from `a` to `c`.
pub fn path_turns_at(a: Point, b: Point, c: Point) -> (turns: bool)
    requires
        a.in_world(),
        b.in_world(),
        c.in_world(),
    ensures
        turns == turns_at(a, b, c),
{
    let ux: i128 = b.x as i128 - a.x as i128;
    let uy: i128 = b.y as i128 - a.y as i128;
    let vx: i128 = c.x as i128 - b.x as i128;
    let vy: i128 = c.y as i128 - b.y as i128;
    proof {
        lemma_signed_product_bound(ux as int, vx as int, 0x800_0000, 0x800_0000);
        lemma_signed_product_bound(uy as int, vy as int, 0x800_0000, 0x800_0000);
        lemma_signed_product_bound(ux as int, ux as int, 0x800_0000, 0x800_0000);
        lemma_signed_product_bound(uy as int, uy as int, 0x800_0000, 0x800_0000);
        lemma_signed_product_bound(vx as int, vx as int, 0x800_0000, 0x800_0000);
        lemma_signed_product_bound(vy as int, vy as int, 0x800_0000, 0x800_0000);
        assert(0x800_0000 * 0x800_0000 == 0x40_0000_0000_0000) by (nonlinear_arith);
    }
    let dot: i128 = ux * vx + uy * vy;
    if dot <= 0 {
        return true;
    }
    let first: i128 = ux * ux + uy * uy;
    let second: i128 = vx * vx + vy * vy;
    proof {
        assert(first == a.dist_sq(b)) by (nonlinear_arith)
            requires
                first == ux * ux + uy * uy,
                ux == -(a.x - b.x),
                uy == -(a.y - b.y),
                a.dist_sq(b) == (a.x - b.x) * (a.x - b.x) + (a.y - b.y) * (a.y - b.y),
        ;
        assert(second == b.dist_sq(c)) by (nonlinear_arith)
            requires
                second == vx * vx + vy * vy,
                vx == -(b.x - c.x),
                vy == -(b.y - c.y),
                b.dist_sq(c) == (b.x - c.x) * (b.x - c.x) + (b.y - c.y) * (b.y - c.y),
        ;
        lemma_signed_product_bound(dot as int, dot as int, 0x80_0000_0000_0000, 0x80_0000_0000_0000);
        lemma_signed_product_bound(first as int, second as int, 0x80_0000_0000_0000, 0x80_0000_0000_0000);
        assert(0x80_0000_0000_0000 * 0x80_0000_0000_0000 == 0x4000_0000_0000_0000_0000_0000_0000)
            by (nonlinear_arith);
    }
    10_000 * (dot * dot) < 9_801 * (first * second)
}

/// The pieces to draw along `path`.
pub fn build_cord_meshes(path: &Vec<Point>) -> (meshes: Vec<CordMesh>)
    requires
        path_in_world(path@),
    ensures
        meshes@ == cord_meshes(path@),
{
    let mut meshes: Vec<CordMesh> = Vec::new();
    if path.len() < 2 {
        return meshes;
    }
    let stretches: usize = path.len() - 1;
    let mut i: usize = 0;
    while i < stretches
        invariant
            stretches == path.len() - 1,
            i <= stretches,
            path_in_world(path@),
            meshes@ == meshes_up_to(path@, i as int),
        decreases stretches - i,
    {
        let start: Point = path[i];
        let end: Point = path[i + 1];
        let length: u64 = stretch_reach(start, end) as u64;
        meshes.push(
            CordMesh {
                kind: CordMeshKind::Stretch,
                center: midpoint_of(start, end),
                span: Point { x: end.x - start.x, y: end.y - start.y },
                length,
            },
        );
        if i + 2 < path.len() && path_turns_at(start, end, path[i + 2]) {
            meshes.push(
                CordMesh {
                    kind: CordMeshKind::Cap,
                    center: end,
                    span: Point { x: 0, y: 0 },
                    length: 0,
                },
            );
        }
        i += 1;
    }
    meshes
}

/// Plans one frame of the drawn cord.
///
/// Every piece of the last frame is handed back to be taken down, and the
/// cord forgets them. An attached cord with a trail is drawn along its
/// trail and on to the player, in straight stretches from waypoint to
/// waypoint with a cap over each corner; `render_cord_curve` draws a smooth
/// curve through the same waypoints instead. The caller records the
/// entities it makes for the pieces in `visual_meshes`.
pub fn render_cord_meshes(cord_system: &mut CordSystem, player_pos: Option<Point>) -> (plan:
    RenderPlan)
    requires
        path_in_world(old(cord_system)@.drawn_path(player_pos)),
    ensures
        final(cord_system)@ == (CordModel { visual_meshes: Seq::empty(), ..old(cord_system)@ }),
        plan.despawn@ == old(cord_system)@.visual_meshes,
        plan.spawn@ == cord_meshes(old(cord_system)@.drawn_path(player_pos)),
{
    let mut despawn: Vec<u64> = Vec::new();
    core::mem::swap(&mut despawn, &mut cord_system.visual_meshes);
    assert(final(cord_system)@ =~= (CordModel {
        visual_meshes: Seq::empty(),
        ..old(cord_system)@
    }));
    let mut spawn: Vec<CordMesh> = Vec::new();
    if cord_system.attached_pole.is_some() && cord_system.trail_path.len() > 0 {
        match player_pos {
            Some(player) => {
                let mut full_path: Vec<Point> = cord_system.trail_path.clone();
                full_path.push(player);
                spawn = build_cord_meshes(&full_path);
            },
            None => {},
        }
    }
    RenderPlan { despawn, spawn }
}

/// The rectangles along `path`, one for each stretch between two
/// neighbouring points, in path order.
pub open spec fn cord_quads(path: Seq<Point>) -> Seq<CordMesh> {
    if path.len() < 2 {
        Seq::empty()
    } else {
        Seq::new((path.len() - 1) as nat, |i: int| stretch_mesh(path[i], path[i + 1]))
    }
}

/// The rectangle along the stretch from `a` to `b`.
pub fn quad_between(a: Point, b: Point) -> (quad: CordMesh)
    requires
        in_curve_range(a),
        in_curve_range(b),
    ensures
        quad == stretch_mesh(a, b),
{
    let gx: u128 = axis_gap(a.x, b.x);
    let gy: u128 = axis_gap(a.y, b.y);
    proof {
        lemma_square_of_magnitude(a.x - b.x);
        lemma_square_of_magnitude(a.y - b.y);
        lemma_square_monotonic(gx as int, 0x1_0000_0000);
        lemma_square_monotonic(gy as int, 0x1_0000_0000);
        assert(square(0x1_0000_0000) == 0x1_0000_0000_0000_0000) by (nonlinear_arith);
    }
    let length: u64 = isqrt_wide(gx * gx + gy * gy);
    let x: i128 = rounded_quotient(a.x as i128 + b.x as i128, 2);
    let y: i128 = rounded_quotient(a.y as i128 + b.y as i128, 2);
    CordMesh {
        kind: CordMeshKind::Stretch,
        center: Point { x: x as i64, y: y as i64 },
        span: Point { x: b.x - a.x, y: b.y - a.y },
        length,
    }
}

/// The rectangles to draw along a polyline.
pub fn build_cord_quads(path: &Vec<Point>) -> (quads: Vec<CordMesh>)
    requires
        path_in_curve_range(path@),
    ensures
        quads@ == cord_quads(path@),
{
    let mut quads: Vec<CordMesh> = Vec::new();
    if path.len() < 2 {
        return quads;
    }
    let stretches: usize = path.len() - 1;
    let mut i: usize = 0;
    while i < stretches
        invariant
            stretches == path.len() - 1,
            i <= stretches,
            path_in_curve_range(path@),
            quads@.len() == i,
            forall|j: int| 0 <= j < i ==> #[trigger] quads@[j] == stretch_mesh(path@[j], path@[j + 1]),
        decreases stretches - i,
    {
        quads.push(quad_between(path[i], path[i + 1]));
        i += 1;
    }
    assert(quads@ =~= cord_quads(path@));
    quads
}

/// Plans one frame of the cord drawn as a smooth curve.
///
/// Every piece of the last frame is handed back to be taken down, and the
/// cord forgets them. The curve of the given kind is laid through the trail
/// and the player, sampled `samples` times to each stretch, and drawn as one
/// rectangle between each two neighbouring samples. The last waypoint is no
/// sample of its own: sampling stops short of it.
pub fn render_cord_curve(
    cord_system: &mut CordSystem,
    player_pos: Option<Point>,
    curve: CurveKind,
    samples: u16,
) -> (plan: RenderPlan)
    requires
        path_in_world(old(cord_system)@.drawn_path(player_pos)),
    ensures
        final(cord_system)@ == (CordModel { visual_meshes: Seq::empty(), ..old(cord_system)@ }),
        plan.despawn@ == old(cord_system)@.visual_meshes,
        plan.spawn@ == cord_quads(
            sampled_curve(old(cord_system)@.drawn_path(player_pos), curve, samples as int),
        ),
{
    let mut despawn: Vec<u64> = Vec::new();
    core::mem::swap(&mut despawn, &mut cord_system.visual_meshes);
    assert(final(cord_system)@ =~= (CordModel {
        visual_meshes: Seq::empty(),
        ..old(cord_system)@
    }));
    let mut full_path: Vec<Point> = Vec::new();
    if cord_system.attached_pole.is_some() && cord_system.trail_path.len() > 0 {
        match player_pos {
            Some(player) => {
                full_path = cord_system.trail_path.clone();
                full_path.push(player);
            },
            None => {},
        }
    }
    assert(full_path@ =~= old(cord_system)@.drawn_path(player_pos));
    let polyline: Vec<Point> = sample_curve(&full_path, curve, samples);
    let spawn: Vec<CordMesh> = build_cord_quads(&polyline);
    RenderPlan { despawn, spawn }
}

} // verus!
