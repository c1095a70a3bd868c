//! Smooth curves through the waypoints of a cord, sampled into polylines.
//!
//! Each stretch between two neighbouring waypoints is sampled at the
//! parameters `k / n` for `k` from zero up to but short of `n`.

use vstd::prelude::*;
use vstd::arithmetic::div_mod::lemma_fundamental_div_mod_converse;
use crate::geometry::{
    distance_squared, is_sqrt_floor, isqrt, lemma_component_within_norm, lemma_product_bound,
    lemma_round_div_exact, lemma_round_div_scaled_bound, lemma_square_monotonic, path_in_world, round_div,
    rounded_quotient, scale_component, scaled_component, sqrt_floor, square, Point, WORLD_MAX,
};

verus! {

/// Largest coordinate magnitude of a curve sampled through the world.
pub const CURVE_MAX: i64 = 2_147_483_648;

/// Which curve is laid through the waypoints.
#[derive(Clone, Copy, Debug, PartialEq, Eq, Structural)]
pub enum CurveKind {
    CatmullRom,
    Bezier,
}

/// Both coordinates lie within `CURVE_MAX` of the origin.
pub open spec fn in_curve_range(point: Point) -> bool {
    &&& -CURVE_MAX <= point.x <= CURVE_MAX
    &&& -CURVE_MAX <= point.y <= CURVE_MAX
}

/// Every point of `path` lies within `CURVE_MAX` of the origin.
pub open spec fn path_in_curve_range(path: Seq<Point>) -> bool {
    forall|i: int| 0 <= i < path.len() ==> in_curve_range(#[trigger] path[i])
}

/// The waypoint at index `i`; before the first waypoint the first one
/// stands in, after the last one the last.
pub open spec fn waypoint(path: Seq<Point>, i: int) -> Point {
    if i < 0 {
        path[0]
    } else if i >= path.len() {
        path[path.len() - 1]
    } else {
        path[i]
    }
}

/// Twice `n` cubed times the uniform Catmull-Rom spline through `start` and
/// `end`, with neighbours `before` and `after`, at the parameter `k / n`.
pub open spec fn catmull_rom_numerator(
    before: int,
    start: int,
    end: int,
    after: int,
    k: int,
    n: int,
) -> int {
    2 * start * n * n * n + (end - before) * k * n * n + (2 * before - 5 * start + 4 * end
        - after) * k * k * n + (3 * start - before - 3 * end + after) * k * k * k
}

/// The uniform Catmull-Rom spline through `start` and `end`, with neighbours
/// `before` and `after`, at the parameter `k / n`, rounded to the nearest
/// integer.
pub open spec fn catmull_rom_coordinate(
    before: int,
    start: int,
    end: int,
    after: int,
    k: int,
    n: int,
) -> int {
    round_div(catmull_rom_numerator(before, start, end, after, k, n), 2 * n * n * n)
}

/// Sample `k` of `n` on the stretch that starts at waypoint `stretch`.
pub open spec fn catmull_rom_point(path: Seq<Point>, stretch: int, k: int, n: int) -> Point {
    let before = waypoint(path, stretch - 1);
    let start = waypoint(path, stretch);
    let end = waypoint(path, stretch + 1);
    let after = waypoint(path, stretch + 2);
    Point {
        x: catmull_rom_coordinate(
            before.x as int,
            start.x as int,
            end.x as int,
            after.x as int,
            k,
            n,
        ) as i64,
        y: catmull_rom_coordinate(
            before.y as int,
            start.y as int,
            end.y as int,
            after.y as int,
            k,
            n,
        ) as i64,
    }
}

/// The Catmull-Rom spline through `path`, `n` samples to each stretch
/// between two neighbouring waypoints, in path order. A path of fewer than
/// two waypoints has no stretch and gives no sample.
pub open spec fn catmull_rom_curve(path: Seq<Point>, n: int) -> Seq<Point> {
    if path.len() < 2 || n <= 0 {
        Seq::empty()
    } else {
        Seq::new(((path.len() - 1) * n) as nat, |j: int| catmull_rom_point(path, j / n, j % n, n))
    }
}

/// A coefficient within `c` times three factors within `n` lies within
/// `c` times `n` cubed.
proof fn lemma_cubic_term_bound(a: int, c: int, x1: int, x2: int, x3: int, n: int)
    requires
        -c <= a <= c,
        0 <= x1 <= n,
        0 <= x2 <= n,
        0 <= x3 <= n,
    ensures
        -(c * (n * n * n)) <= a * x1 * x2 * x3 <= c * (n * n * n),
        -(c * n) <= a * x1 <= c * n,
        -(c * n * n) <= a * x1 * x2 <= c * n * n,
{
    lemma_product_bound(a, x1, c, n);
    lemma_product_bound(a * x1, x2, c * n, n);
    lemma_product_bound(a * x1 * x2, x3, c * n * n, n);
    assert(c * n * n * n == c * (n * n * n)) by (nonlinear_arith);
}

/// Squares and cubes of sample counts stay small.
proof fn lemma_cube_bound(n: int)
    by (nonlinear_arith)
    requires
        1 <= n <= 0xffff,
    ensures
        1 <= n * n <= 0xffff * 0xffff,
        1 <= n * n * n <= 0xffff * 0xffff * 0xffff,
{
}

/// The product of a bounded coefficient and three factors no larger than
/// `n`.
fn cubic_term(a: i128, x1: u16, x2: u16, x3: u16, Ghost(c): Ghost<int>, Ghost(n): Ghost<int>) -> (term:
    i128)
    requires
        -c <= a <= c,
        0 <= c <= 0x1_0000_0000,
        x1 <= n,
        x2 <= n,
        x3 <= n,
        1 <= n <= 0xffff,
    ensures
        term == a * x1 * x2 * x3,
        -(c * (n * n * n)) <= term <= c * (n * n * n),
{
    proof {
        lemma_cubic_term_bound(a as int, c, x1 as int, x2 as int, x3 as int, n);
        lemma_cube_bound(n);
        lemma_product_bound(c, n, 0x1_0000_0000, 0xffff);
        lemma_product_bound(c * n, n, 281_470_681_743_360int, 0xffff);
        lemma_product_bound(c * n * n, n, 18_446_181_128_051_097_600int, 0xffff);
        assert(c * n * n * n == c * (n * n * n)) by (nonlinear_arith);
    }
    a * (x1 as i128) * (x2 as i128) * (x3 as i128)
}

/// One coordinate of a Catmull-Rom sample.
pub fn catmull_rom_sample(before: i64, start: i64, end: i64, after: i64, k: u16, n: u16) -> (value: i64)
    requires
        -WORLD_MAX <= before <= WORLD_MAX,
        -WORLD_MAX <= start <= WORLD_MAX,
        -WORLD_MAX <= end <= WORLD_MAX,
        -WORLD_MAX <= after <= WORLD_MAX,
        k < n,
    ensures
        value == catmull_rom_coordinate(
            before as int,
            start as int,
            end as int,
            after as int,
            k as int,
            n as int,
        ),
        -12 * WORLD_MAX <= value <= 12 * WORLD_MAX,
{
    let a: i128 = before as i128;
    let b: i128 = start as i128;
    let c: i128 = end as i128;
    let d: i128 = after as i128;
    let ghost m = n as int;
    let ghost cube = m * m * m;
    proof {
        lemma_cube_bound(m);
    }
    let t0: i128 = cubic_term(2 * b, n, n, n, Ghost(2 * WORLD_MAX as int), Ghost(m));
    let t1: i128 = cubic_term(c - a, k, n, n, Ghost(2 * WORLD_MAX as int), Ghost(m));
    let t2: i128 = cubic_term(
        2 * a - 5 * b + 4 * c - d,
        k,
        k,
        n,
        Ghost(12 * WORLD_MAX as int),
        Ghost(m),
    );
    let t3: i128 = cubic_term(3 * b - a - 3 * c + d, k, k, k, Ghost(8 * WORLD_MAX as int), Ghost(m));
    let size: i128 = n as i128;
    let denominator: i128 = 2 * (size * size * size);
    assert(2 * (m * m * m) == 2 * m * m * m) by (nonlinear_arith);
    let numerator: i128 = t0 + t1 + t2 + t3;
    proof {
        assert(-(134_217_728 * cube) <= t0 <= 134_217_728 * cube);
        assert(-(134_217_728 * cube) <= t1 <= 134_217_728 * cube);
        assert(-(805_306_368 * cube) <= t2 <= 805_306_368 * cube);
        assert(-(536_870_912 * cube) <= t3 <= 536_870_912 * cube);
        assert(denominator == 2 * cube);
        assert(805_306_368 * (2 * cube) == 1_610_612_736 * cube);
        lemma_round_div_scaled_bound(numerator as int, denominator as int, 805_306_368);
        assert(numerator == catmull_rom_numerator(
            before as int,
            start as int,
            end as int,
            after as int,
            k as int,
            n as int,
        ));
    }
    rounded_quotient(numerator, denominator) as i64
}

/// The waypoint at index `i`, the ends of the path standing in beyond them.
fn waypoint_at(path: &Vec<Point>, i: usize, back: bool) -> (point: Point)
    requires
        path.len() >= 1,
        i < path.len() + 2,
    ensures
        point == waypoint(
            path@,
            if back {
                i as int - 1
            } else {
                i as int
            },
        ),
{
    if back {
        if i == 0 {
            path[0]
        } else if i - 1 >= path.len() {
            path[path.len() - 1]
        } else {
            path[i - 1]
        }
    } else if i >= path.len() {
        path[path.len() - 1]
    } else {
        path[i]
    }
}

/// The Catmull-Rom spline through `path`, `samples` points to each stretch
/// between two neighbouring waypoints.
pub fn catmull_rom_path(path: &Vec<Point>, samples: u16) -> (curve: Vec<Point>)
    requires
        path_in_world(path@),
    ensures
        curve@ == catmull_rom_curve(path@, samples as int),
        path@.len() >= 2 ==> curve@.len() == (path@.len() - 1) * samples,
        path_in_curve_range(curve@),
{
    let mut curve: Vec<Point> = Vec::new();
    if path.len() < 2 || samples == 0 {
        assert(curve@ =~= catmull_rom_curve(path@, samples as int));
        assert((path@.len() - 1) * 0 == 0);
        return curve;
    }
    let ghost n: int = samples as int;
    let stretches: usize = path.len() - 1;
    let mut stretch: usize = 0;
    while stretch < stretches
        invariant
            n == samples,
            samples > 0,
            stretches == path.len() - 1,
            path.len() >= 2,
            stretch <= stretches,
            path_in_world(path@),
            curve@.len() == stretch * n,
            path_in_curve_range(curve@),
            forall|j: int|
                0 <= j < curve@.len() ==> #[trigger] curve@[j] == catmull_rom_point(
                    path@,
                    j / n,
                    j % n,
                    n,
                ),
        decreases stretches - stretch,
    {
        let before: Point = waypoint_at(path, stretch, true);
        let start: Point = waypoint_at(path, stretch, false);
        let end: Point = waypoint_at(path, stretch + 1, false);
        let after: Point = waypoint_at(path, stretch + 2, false);
        let mut k: u16 = 0;
        while k < samples
            invariant
                n == samples,
                samples > 0,
                stretch < stretches,
                stretches == path.len() - 1,
                k <= samples,
                before == waypoint(path@, stretch as int - 1),
                start == waypoint(path@, stretch as int),
                end == waypoint(path@, stretch as int + 1),
                after == waypoint(path@, stretch as int + 2),
                before.in_world() && start.in_world() && end.in_world() && after.in_world(),
                curve@.len() == stretch * n + k,
                path_in_curve_range(curve@),
                forall|j: int|
                    0 <= j < curve@.len() ==> #[trigger] curve@[j] == catmull_rom_point(
                        path@,
                        j / n,
                        j % n,
                        n,
                    ),
            decreases samples - k,
        {
            let x: i64 = catmull_rom_sample(before.x, start.x, end.x, after.x, k, samples);
            let y: i64 = catmull_rom_sample(before.y, start.y, end.y, after.y, k, samples);
            proof {
                let j = stretch * n + k;
                lemma_fundamental_div_mod_converse(j, n, stretch as int, k as int);
            }
            curve.push(Point { x, y });
            k += 1;
        }
        proof {
            assert(stretch * n + n == (stretch + 1) * n) by (nonlinear_arith);
        }
        stretch += 1;
    }
    assert(curve@ =~= catmull_rom_curve(path@, samples as int));
    curve
}

/// Number of samples the game takes on each stretch of a Bézier curve.
pub const BEZIER_SAMPLES: u16 = 64;

/// Direction of the path at waypoint `i`: from the waypoint before it to
/// the waypoint after it.
pub open spec fn tangent(path: Seq<Point>, i: int) -> (int, int) {
    (
        waypoint(path, i + 1).x - waypoint(path, i - 1).x,
        waypoint(path, i + 1).y - waypoint(path, i - 1).y,
    )
}

/// A quarter of `reach` along the direction `(tx, ty)`; zero where the
/// direction is zero.
pub open spec fn quarter_along(tx: int, ty: int, reach: int) -> (int, int) {
    let norm = sqrt_floor(square(tx) + square(ty));
    (scaled_component(tx, 4 * norm, reach), scaled_component(ty, 4 * norm, reach))
}

/// Length of the stretch that starts at waypoint `i`, rounded down.
pub open spec fn stretch_length(path: Seq<Point>, i: int) -> int {
    sqrt_floor(path[i].dist_sq(path[i + 1]))
}

/// First control point of the stretch that starts at waypoint `i`: a
/// quarter of the stretch's length beyond the waypoint, along the path's
/// direction there.
pub open spec fn first_control(path: Seq<Point>, i: int) -> (int, int) {
    let t = tangent(path, i);
    let offset = quarter_along(t.0, t.1, stretch_length(path, i));
    (path[i].x + offset.0, path[i].y + offset.1)
}

/// Second control point of the stretch that starts at waypoint `i`: a
/// quarter of the stretch's length before the next waypoint, against the
/// path's direction there.
pub open spec fn second_control(path: Seq<Point>, i: int) -> (int, int) {
    let t = tangent(path, i + 1);
    let offset = quarter_along(t.0, t.1, stretch_length(path, i));
    (path[i + 1].x - offset.0, path[i + 1].y - offset.1)
}

/// `n` cubed times the cubic Bézier curve from `a` to `b` with control
/// points `c1` and `c2`, at the parameter `k / n`.
pub open spec fn bezier_numerator(a: int, c1: int, c2: int, b: int, k: int, n: int) -> int {
    a * (n - k) * (n - k) * (n - k) + 3 * c1 * (n - k) * (n - k) * k + 3 * c2 * (n - k) * k * k + b
        * k * k * k
}

/// The cubic Bézier curve from `a` to `b` with control points `c1` and
/// `c2`, at the parameter `k / n`, rounded to the nearest integer.
pub open spec fn bezier_coordinate(a: int, c1: int, c2: int, b: int, k: int, n: int) -> int {
    round_div(bezier_numerator(a, c1, c2, b, k, n), n * n * n)
}

/// Sample `k` of `n` on the stretch that starts at waypoint `stretch`.
pub open spec fn bezier_point(path: Seq<Point>, stretch: int, k: int, n: int) -> Point {
    let c1 = first_control(path, stretch);
    let c2 = second_control(path, stretch);
    Point {
        x: bezier_coordinate(path[stretch].x as int, c1.0, c2.0, path[stretch + 1].x as int, k, n) as i64,
        y: bezier_coordinate(path[stretch].y as int, c1.1, c2.1, path[stretch + 1].y as int, k, n) as i64,
    }
}

/// The chain of cubic Bézier curves through `path`, `n` samples to each
/// stretch between two neighbouring waypoints, in path order. A path of
/// fewer than two waypoints has no stretch and gives no sample.
pub open spec fn bezier_curve(path: Seq<Point>, n: int) -> Seq<Point> {
    if path.len() < 2 || n <= 0 {
        Seq::empty()
    } else {
        Seq::new(((path.len() - 1) * n) as nat, |j: int| bezier_point(path, j / n, j % n, n))
    }
}

/// Length of the stretch from `a` to `b`, rounded down.
pub fn stretch_reach(a: Point, b: Point) -> (reach: u32)
    requires
        a.in_world(),
        b.in_world(),
    ensures
        reach == sqrt_floor(a.dist_sq(b)),
        is_sqrt_floor(a.dist_sq(b), reach as int),
        reach < 0x1000_0000,
{
    let d2: u128 = distance_squared(a, b);
    let reach: u32 = isqrt(d2 as u64);
    proof {
        if reach >= 0x1000_0000 {
            lemma_square_monotonic(0x1000_0000, reach as int);
            assert(square(0x1000_0000) == 0x100_0000_0000_0000) by (nonlinear_arith);
        }
    }
    reach
}

/// A quarter of `reach` along the direction from `before` to `after`.
pub fn quarter_offset(before: Point, after: Point, reach: u32) -> (offset: (i64, i64))
    requires
        before.in_world(),
        after.in_world(),
    ensures
        (offset.0 as int, offset.1 as int) == quarter_along(
            after.x - before.x,
            after.y - before.y,
            reach as int,
        ),
        -(reach as int) <= offset.0 <= reach,
        -(reach as int) <= offset.1 <= reach,
{
    let norm: u32 = stretch_reach(before, after);
    let dx: i64 = after.x - before.x;
    let dy: i64 = after.y - before.y;
    proof {
        assert(square(dx as int) == square(before.x - after.x)) by (nonlinear_arith)
            requires
                dx == -(before.x - after.x),
        ;
        assert(square(dy as int) == square(before.y - after.y)) by (nonlinear_arith)
            requires
                dy == -(before.y - after.y),
        ;
        lemma_component_within_norm(dx as int, dy as int, norm as int);
        lemma_component_within_norm(dy as int, dx as int, norm as int);
    }
    let quad: u32 = 4 * norm;
    (scale_component(dx, quad, reach), scale_component(dy, quad, reach))
}

/// One coordinate of a Bézier sample.
pub fn bezier_sample(a: i64, c1: i64, c2: i64, b: i64, k: u16, n: u16) -> (value: i64)
    requires
        -WORLD_MAX <= a <= WORLD_MAX,
        -WORLD_MAX <= b <= WORLD_MAX,
        -5 * WORLD_MAX <= c1 <= 5 * WORLD_MAX,
        -5 * WORLD_MAX <= c2 <= 5 * WORLD_MAX,
        k < n,
    ensures
        value == bezier_coordinate(a as int, c1 as int, c2 as int, b as int, k as int, n as int),
        -32 * WORLD_MAX <= value <= 32 * WORLD_MAX,
{
    let ghost m = n as int;
    let ghost cube = m * m * m;
    proof {
        lemma_cube_bound(m);
    }
    let rest: u16 = n - k;
    let t0: i128 = cubic_term(a as i128, rest, rest, rest, Ghost(WORLD_MAX as int), Ghost(m));
    let t1: i128 = cubic_term(3 * (c1 as i128), rest, rest, k, Ghost(15 * WORLD_MAX as int), Ghost(m));
    let t2: i128 = cubic_term(3 * (c2 as i128), rest, k, k, Ghost(15 * WORLD_MAX as int), Ghost(m));
    let t3: i128 = cubic_term(b as i128, k, k, k, Ghost(WORLD_MAX as int), Ghost(m));
    let size: i128 = n as i128;
    let denominator: i128 = size * size * size;
    let numerator: i128 = t0 + t1 + t2 + t3;
    proof {
        assert(-(67_108_864 * cube) <= t0 <= 67_108_864 * cube);
        assert(-(1_006_632_960 * cube) <= t1 <= 1_006_632_960 * cube);
        assert(-(1_006_632_960 * cube) <= t2 <= 1_006_632_960 * cube);
        assert(-(67_108_864 * cube) <= t3 <= 67_108_864 * cube);
        assert(denominator == cube);
        lemma_round_div_scaled_bound(numerator as int, denominator as int, 2_147_483_648);
        assert(numerator == bezier_numerator(
            a as int,
            c1 as int,
            c2 as int,
            b as int,
            k as int,
            n as int,
        ));
    }
    rounded_quotient(numerator, denominator) as i64
}

/// The chain of cubic Bézier curves through `path`, `samples` points to
/// each stretch between two neighbouring waypoints.
pub fn bezier_path(path: &Vec<Point>, samples: u16) -> (curve: Vec<Point>)
    requires
        path_in_world(path@),
    ensures
        curve@ == bezier_curve(path@, samples as int),
        path@.len() >= 2 ==> curve@.len() == (path@.len() - 1) * samples,
        path_in_curve_range(curve@),
{
    let mut curve: Vec<Point> = Vec::new();
    if path.len() < 2 || samples == 0 {
        assert(curve@ =~= bezier_curve(path@, samples as int));
        assert((path@.len() - 1) * 0 == 0);
        return curve;
    }
    let ghost n: int = samples as int;
    let stretches: usize = path.len() - 1;
    let mut stretch: usize = 0;
    while stretch < stretches
        invariant
            n == samples,
            samples > 0,
            stretches == path.len() - 1,
            path.len() >= 2,
            stretch <= stretches,
            path_in_world(path@),
            curve@.len() == stretch * n,
            path_in_curve_range(curve@),
            forall|j: int|
                0 <= j < curve@.len() ==> #[trigger] curve@[j] == bezier_point(
                    path@,
                    j / n,
                    j % n,
                    n,
                ),
        decreases stretches - stretch,
    {
        let before: Point = waypoint_at(path, stretch, true);
        let a: Point = path[stretch];
        let b: Point = path[stretch + 1];
        let after: Point = waypoint_at(path, stretch + 2, false);
        let reach: u32 = stretch_reach(a, b);
        let leave: (i64, i64) = quarter_offset(before, b, reach);
        let arrive: (i64, i64) = quarter_offset(a, after, reach);
        let c1: Point = Point { x: a.x + leave.0, y: a.y + leave.1 };
        let c2: Point = Point { x: b.x - arrive.0, y: b.y - arrive.1 };
        proof {
            assert(waypoint(path@, stretch as int + 1) == b);
            assert(waypoint(path@, stretch as int) == a);
            assert((c1.x as int, c1.y as int) == first_control(path@, stretch as int));
            assert((c2.x as int, c2.y as int) == second_control(path@, stretch as int));
        }
        let mut k: u16 = 0;
        while k < samples
            invariant
                n == samples,
                samples > 0,
                stretch < stretches,
                stretches == path.len() - 1,
                k <= samples,
                a == path@[stretch as int],
                b == path@[stretch as int + 1],
                a.in_world() && b.in_world(),
                -5 * WORLD_MAX <= c1.x <= 5 * WORLD_MAX,
                -5 * WORLD_MAX <= c1.y <= 5 * WORLD_MAX,
                -5 * WORLD_MAX <= c2.x <= 5 * WORLD_MAX,
                -5 * WORLD_MAX <= c2.y <= 5 * WORLD_MAX,
                (c1.x as int, c1.y as int) == first_control(path@, stretch as int),
                (c2.x as int, c2.y as int) == second_control(path@, stretch as int),
                curve@.len() == stretch * n + k,
                path_in_curve_range(curve@),
                forall|j: int|
                    0 <= j < curve@.len() ==> #[trigger] curve@[j] == bezier_point(
                        path@,
                        j / n,
                        j % n,
                        n,
                    ),
            decreases samples - k,
        {
            let x: i64 = bezier_sample(a.x, c1.x, c2.x, b.x, k, samples);
            let y: i64 = bezier_sample(a.y, c1.y, c2.y, b.y, k, samples);
            proof {
                let j = stretch * n + k;
                lemma_fundamental_div_mod_converse(j, n, stretch as int, k as int);
            }
            curve.push(Point { x, y });
            k += 1;
        }
        proof {
            assert(stretch * n + n == (stretch + 1) * n) by (nonlinear_arith);
        }
        stretch += 1;
    }
    assert(curve@ =~= bezier_curve(path@, samples as int));
    curve
}

/// Both curves pass through every waypoint but the last: the first sample
/// of each stretch is the waypoint the stretch starts at.
pub proof fn theorem_curves_pass_through_waypoints(path: Seq<Point>, n: int, stretch: int)
    requires
        n > 0,
        0 <= stretch < path.len() - 1,
    ensures
        catmull_rom_curve(path, n)[stretch * n] == path[stretch],
        bezier_curve(path, n)[stretch * n] == path[stretch],
{
    let j = stretch * n;
    assert(0 <= j < (path.len() - 1) * n) by (nonlinear_arith)
        requires
            j == stretch * n,
            n > 0,
            0 <= stretch < path.len() - 1,
    ;
    lemma_fundamental_div_mod_converse(j, n, stretch, 0);
    let cube = n * n * n;
    assert(cube > 0) by (nonlinear_arith)
        requires
            cube == n * n * n,
            n > 0,
    ;
    let before = waypoint(path, stretch - 1);
    let end = waypoint(path, stretch + 1);
    let after = waypoint(path, stretch + 2);
    let here = path[stretch];
    assert forall|a: int, b: int, c: int, d: int| #[trigger]
        catmull_rom_coordinate(a, b, c, d, 0, n) == b by {
        assert(catmull_rom_numerator(a, b, c, d, 0, n) == b * (2 * n * n * n)
            && 2 * n * n * n == 2 * cube) by (nonlinear_arith)
            requires
                catmull_rom_numerator(a, b, c, d, 0, n) == 2 * b * n * n * n + (c - a) * 0 * n * n
                    + (2 * a - 5 * b + 4 * c - d) * 0 * 0 * n + (3 * b - a - 3 * c + d) * 0 * 0
                    * 0,
                cube == n * n * n,
        ;
        lemma_round_div_exact(b, 2 * cube);
    }
    assert forall|a: int, c1: int, c2: int, b: int| #[trigger]
        bezier_coordinate(a, c1, c2, b, 0, n) == a by {
        assert(bezier_numerator(a, c1, c2, b, 0, n) == a * (n * n * n)) by (nonlinear_arith)
            requires
                bezier_numerator(a, c1, c2, b, 0, n) == a * (n - 0) * (n - 0) * (n - 0) + 3 * c1
                    * (n - 0) * (n - 0) * 0 + 3 * c2 * (n - 0) * 0 * 0 + b * 0 * 0 * 0,
        ;
        lemma_round_div_exact(a, cube);
    }
    assert(catmull_rom_point(path, stretch, 0, n) == here);
    assert(bezier_point(path, stretch, 0, n) == here);
}

/// The curve of the given kind through `path`, `n` samples to each
/// stretch between two neighbouring waypoints.
pub open spec fn sampled_curve(path: Seq<Point>, kind: CurveKind, n: int) -> Seq<Point> {
    match kind {
        CurveKind::CatmullRom => catmull_rom_curve(path, n),
        CurveKind::Bezier => bezier_curve(path, n),
    }
}

/// The curve of the given kind through `path`, `samples` points to each
/// stretch between two neighbouring waypoints.
pub fn sample_curve(path: &Vec<Point>, kind: CurveKind, samples: u16) -> (curve: Vec<Point>)
    requires
        path_in_world(path@),
    ensures
        curve@ == sampled_curve(path@, kind, samples as int),
        path_in_curve_range(curve@),
{
    match kind {
        CurveKind::CatmullRom => catmull_rom_path(path, samples),
        CurveKind::Bezier => bezier_path(path, samples),
    }
}

} // verus!
