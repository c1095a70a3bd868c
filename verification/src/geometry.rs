//! Fixed-point plane geometry.
//!
//! A coordinate counts thousandths of a world unit. Distances are compared
//! through their squares, so every comparison is exact.

use vstd::prelude::*;

verus! {

/// Number of fixed-point steps in one world unit.
pub const UNIT: i64 = 1000;

/// Largest coordinate magnitude of the simulated world (about 67,000 world
/// units). Products of four coordinate differences inside it fit in 128 bits.
pub const WORLD_MAX: i64 = 67_108_864;

/// A position or displacement in the plane.
#[derive(Clone, Copy, Debug, PartialEq, Eq, Structural)]
pub struct Point {
    pub x: i64,
    pub y: i64,
}

/// Square of an integer.
pub open spec fn square(v: int) -> int {
    v * v
}

/// Absolute value of an integer.
pub open spec fn magnitude(v: int) -> int {
    if v < 0 {
        -v
    } else {
        v
    }
}

impl Point {
    /// Both coordinates lie within `WORLD_MAX` of the origin.
    pub open spec fn in_world(self) -> bool {
        &&& -WORLD_MAX <= self.x <= WORLD_MAX
        &&& -WORLD_MAX <= self.y <= WORLD_MAX
    }

    /// Squared Euclidean distance to `other`.
    pub open spec fn dist_sq(self, other: Point) -> int {
        square(self.x - other.x) + square(self.y - other.y)
    }

    /// The point `(x, y)`.
    pub fn new(x: i64, y: i64) -> (p: Point)
        ensures
            p.x == x,
            p.y == y,
    {
        Point { x, y }
    }

    /// Decides `in_world`.
    pub fn is_in_world(&self) -> (inside: bool)
        ensures
            inside == self.in_world(),
    {
        -WORLD_MAX <= self.x && self.x <= WORLD_MAX && -WORLD_MAX <= self.y && self.y <= WORLD_MAX
    }
}

/// Every point of `path` lies in the world.
pub open spec fn path_in_world(path: Seq<Point>) -> bool {
    forall|i: int| 0 <= i < path.len() ==> (#[trigger] path[i]).in_world()
}

/// Decides `path_in_world`.
pub fn is_path_in_world(path: &Vec<Point>) -> (inside: bool)
    ensures
        inside == path_in_world(path@),
{
    let mut i: usize = 0;
    while i < path.len()
        invariant
            i <= path.len(),
            forall|j: int| 0 <= j < i ==> (#[trigger] path@[j]).in_world(),
        decreases path.len() - i,
    {
        if !path[i].is_in_world() {
            return false;
        }
        i += 1;
    }
    true
}

/// Squaring keeps the order of numbers from zero on.
pub proof fn lemma_square_monotonic(a: int, b: int)
    by (nonlinear_arith)
    requires
        0 <= a <= b,
    ensures
        square(a) <= square(b),
{
}

/// Squaring keeps the strict order of numbers from zero on.
pub proof fn lemma_square_strictly_monotonic(a: int, b: int)
    by (nonlinear_arith)
    requires
        0 <= a < b,
    ensures
        square(a) < square(b),
{
}

/// A number and its magnitude have the same square, which is not negative.
pub proof fn lemma_square_of_magnitude(v: int)
    by (nonlinear_arith)
    ensures
        square(magnitude(v)) == square(v),
        square(v) >= 0,
{
}

/// Distance between two coordinates on one axis.
pub fn axis_gap(a: i64, b: i64) -> (gap: u128)
    ensures
        gap == magnitude(a - b),
        gap <= 0xffff_ffff_ffff_ffff,
{
    let wide: i128 = a as i128 - b as i128;
    if wide < 0 {
        (-wide) as u128
    } else {
        wide as u128
    }
}

/// Squared distance between two points of the world.
pub fn distance_squared(a: Point, b: Point) -> (d2: u128)
    requires
        a.in_world(),
        b.in_world(),
    ensures
        d2 == a.dist_sq(b),
        d2 <= 8 * WORLD_MAX * WORLD_MAX,
{
    let gx: u128 = axis_gap(a.x, b.x);
    let gy: u128 = axis_gap(a.y, b.y);
    proof {
        lemma_square_of_magnitude(a.x - b.x);
        lemma_square_of_magnitude(a.y - b.y);
        lemma_square_monotonic(gx as int, 134_217_728);
        lemma_square_monotonic(gy as int, 134_217_728);
        assert(square(134_217_728) == 18_014_398_509_481_984);
        assert(8 * WORLD_MAX * WORLD_MAX == 36_028_797_018_963_968);
    }
    gx * gx + gy * gy
}

/// Whether `b` lies at most `range` away from `a`.
pub fn within_distance(a: Point, b: Point, range: u32) -> (near: bool)
    ensures
        near == (a.dist_sq(b) <= square(range as int)),
{
    let gx: u128 = axis_gap(a.x, b.x);
    let gy: u128 = axis_gap(a.y, b.y);
    let r: u128 = range as u128;
    proof {
        lemma_square_of_magnitude(a.x - b.x);
        lemma_square_of_magnitude(a.y - b.y);
    }
    if gx > r {
        proof {
            lemma_square_strictly_monotonic(r as int, gx as int);
        }
        false
    } else if gy > r {
        proof {
            lemma_square_strictly_monotonic(r as int, gy as int);
        }
        false
    } else {
        proof {
            lemma_square_monotonic(gx as int, r as int);
            lemma_square_monotonic(gy as int, r as int);
            lemma_square_monotonic(r as int, 0xffff_ffff);
        }
        gx * gx + gy * gy <= r * r
    }
}

/// The squared distance between `a` and `b` where `b` lies at most `range`
/// away from `a`, and nothing where it lies farther.
pub fn distance_squared_within(a: Point, b: Point, range: u32) -> (d2: Option<u64>)
    ensures
        d2 is Some == (a.dist_sq(b) <= square(range as int)),
        d2 matches Some(value) ==> value == a.dist_sq(b),
{
    let gx: u128 = axis_gap(a.x, b.x);
    let gy: u128 = axis_gap(a.y, b.y);
    let r: u128 = range as u128;
    proof {
        lemma_square_of_magnitude(a.x - b.x);
        lemma_square_of_magnitude(a.y - b.y);
    }
    if gx > r {
        proof {
            lemma_square_strictly_monotonic(r as int, gx as int);
        }
        None
    } else if gy > r {
        proof {
            lemma_square_strictly_monotonic(r as int, gy as int);
        }
        None
    } else {
        proof {
            lemma_square_monotonic(gx as int, r as int);
            lemma_square_monotonic(gy as int, r as int);
            lemma_square_monotonic(r as int, 0xffff_ffff);
        }
        let total: u128 = gx * gx + gy * gy;
        if total <= r * r {
            Some(total as u64)
        } else {
            None
        }
    }
}

/// Whether `b` lies strictly less than `limit` away from `a`.
pub fn closer_than(a: Point, b: Point, limit: u32) -> (near: bool)
    ensures
        near == (a.dist_sq(b) < square(limit as int)),
{
    let gx: u128 = axis_gap(a.x, b.x);
    let gy: u128 = axis_gap(a.y, b.y);
    let r: u128 = limit as u128;
    proof {
        lemma_square_of_magnitude(a.x - b.x);
        lemma_square_of_magnitude(a.y - b.y);
    }
    if gx >= r {
        proof {
            lemma_square_monotonic(r as int, gx as int);
        }
        false
    } else if gy >= r {
        proof {
            lemma_square_monotonic(r as int, gy as int);
        }
        false
    } else {
        proof {
            lemma_square_monotonic(gx as int, r as int);
            lemma_square_monotonic(gy as int, r as int);
            lemma_square_monotonic(r as int, 0xffff_ffff);
        }
        gx * gx + gy * gy < r * r
    }
}

/// The cord of the given length is pulled taut between two points whose
/// squared distance is `d2`: the distance is at least 95% of the length.
pub open spec fn taut(d2: int, length: int) -> bool {
    400 * d2 >= 361 * square(length)
}

/// A gap of 95% of the length on one axis alone pulls the cord taut.
proof fn lemma_taut_by_axis(gap: int, other: int, length: int)
    by (nonlinear_arith)
    requires
        0 <= length,
        20 * gap >= 19 * length,
        0 <= other,
    ensures
        400 * (gap * gap + other * other) >= 361 * (length * length),
{
}

/// A gap short of 95% of a 32-bit length has a square of 64 bits.
proof fn lemma_slack_bound(gap: int, length: int)
    by (nonlinear_arith)
    requires
        0 <= gap,
        0 <= length <= 0xffff_ffff,
        20 * gap < 19 * length,
    ensures
        gap * gap <= 0xffff_ffff * 0xffff_ffff,
{
}

/// Whether a cord of `length` between `a` and `b` is pulled taut.
pub fn is_taut(a: Point, b: Point, length: u32) -> (pulled: bool)
    ensures
        pulled == taut(a.dist_sq(b), length as int),
{
    let gx: u128 = axis_gap(a.x, b.x);
    let gy: u128 = axis_gap(a.y, b.y);
    let len: u128 = length as u128;
    proof {
        lemma_square_of_magnitude(a.x - b.x);
        lemma_square_of_magnitude(a.y - b.y);
    }
    if 20 * gx >= 19 * len {
        proof {
            lemma_taut_by_axis(gx as int, gy as int, len as int);
        }
        true
    } else if 20 * gy >= 19 * len {
        proof {
            lemma_taut_by_axis(gy as int, gx as int, len as int);
        }
        true
    } else {
        proof {
            lemma_slack_bound(gx as int, len as int);
            lemma_slack_bound(gy as int, len as int);
            lemma_square_monotonic(len as int, 0xffff_ffff);
        }
        400 * (gx * gx + gy * gy) >= 361 * (len * len)
    }
}

/// Whether `b` lies strictly more than `limit` away from `a`.
pub fn farther_than(a: Point, b: Point, limit: u32) -> (far: bool)
    ensures
        far == (a.dist_sq(b) > square(limit as int)),
{
    !within_distance(a, b, limit)
}

/// `root` is the integer square root of `n`: the largest integer whose
/// square does not exceed `n`.
pub open spec fn is_sqrt_floor(n: int, root: int) -> bool {
    0 <= root && square(root) <= n < square(root + 1)
}

/// The integer square root of `n`.
pub open spec fn sqrt_floor(n: int) -> int {
    choose|root: int| is_sqrt_floor(n, root)
}

/// Every number from zero on has an integer square root.
pub proof fn isqrt_witness(n: int) -> (root: int)
    requires
        n >= 0,
    ensures
        is_sqrt_floor(n, root),
        is_sqrt_floor(n, sqrt_floor(n)),
    decreases n,
{
    if n == 0 {
        assert(is_sqrt_floor(0, 0)) by (nonlinear_arith);
        0
    } else {
        let below = isqrt_witness(n - 1);
        if square(below + 1) <= n {
            assert(square(below + 1) == n);
            assert(n < square(below + 2)) by (nonlinear_arith)
                requires
                    square(below + 1) == n,
                    below >= 0,
            ;
            assert(is_sqrt_floor(n, below + 1));
            below + 1
        } else {
            assert(is_sqrt_floor(n, below));
            below
        }
    }
}

/// A number has at most one integer square root.
pub proof fn lemma_sqrt_floor_unique(n: int, a: int, b: int)
    requires
        is_sqrt_floor(n, a),
        is_sqrt_floor(n, b),
    ensures
        a == b,
{
    if a < b {
        lemma_square_monotonic(a + 1, b);
    } else if b < a {
        lemma_square_monotonic(b + 1, a);
    }
}

/// The integer square root of `n`.
pub fn isqrt(n: u64) -> (root: u32)
    ensures
        is_sqrt_floor(n as int, root as int),
        root == sqrt_floor(n as int),
{
    let mut low: u64 = 0;
    let mut high: u64 = 0x1_0000_0000;
    assert(square(0x1_0000_0000) == 0x1_0000_0000_0000_0000) by (nonlinear_arith);
    assert(square(0) == 0);
    while high - low > 1
        invariant
            low < high <= 0x1_0000_0000,
            square(low as int) <= n < square(high as int),
        decreases high - low,
    {
        let mid: u64 = low + (high - low) / 2;
        proof {
            lemma_square_monotonic(mid as int, 0xffff_ffff);
            assert(square(0xffff_ffff) == 0xffff_fffe_0000_0001) by (nonlinear_arith);
        }
        if mid * mid <= n {
            low = mid;
        } else {
            high = mid;
        }
    }
    proof {
        lemma_sqrt_floor_unique(n as int, low as int, sqrt_floor(n as int));
    }
    low as u32
}

/// The integer square root of a number of any size.
pub fn isqrt_wide(n: u128) -> (root: u64)
    ensures
        is_sqrt_floor(n as int, root as int),
        root == sqrt_floor(n as int),
{
    let mut low: u128 = 0;
    let mut high: u128 = 0x1_0000_0000_0000_0000;
    assert(square(0x1_0000_0000_0000_0000) == 0x1_0000_0000_0000_0000_0000_0000_0000_0000)
        by (nonlinear_arith);
    assert(square(0) == 0);
    while high - low > 1
        invariant
            low < high <= 0x1_0000_0000_0000_0000,
            square(low as int) <= n < square(high as int),
        decreases high - low,
    {
        let mid: u128 = low + (high - low) / 2;
        proof {
            lemma_square_monotonic(mid as int, 0xffff_ffff_ffff_ffff);
            assert(square(0xffff_ffff_ffff_ffff) == 0xffff_ffff_ffff_fffe_0000_0000_0000_0001)
                by (nonlinear_arith);
        }
        if mid * mid <= n {
            low = mid;
        } else {
            high = mid;
        }
    }
    proof {
        isqrt_witness(n as int);
        lemma_sqrt_floor_unique(n as int, low as int, sqrt_floor(n as int));
    }
    low as u64
}

/// `n / d` rounded to the nearest integer, halves away from zero.
pub open spec fn round_div(n: int, d: int) -> int {
    if n >= 0 {
        (2 * n + d) / (2 * d)
    } else {
        -((2 * (-n) + d) / (2 * d))
    }
}

/// A rounded quotient of magnitudes lies between zero and one more than
/// the dividend.
pub proof fn lemma_round_div_bound(n: int, d: int)
    by (nonlinear_arith)
    requires
        d > 0,
    ensures
        n >= 0 ==> 0 <= (2 * n + d) / (2 * d) <= n + 1,
        n < 0 ==> 0 <= (2 * (-n) + d) / (2 * d) <= -n + 1,
        d / (2 * d) == 0,
{
}

/// The product of a bounded number and a bounded number from zero on is
/// bounded by the product of the bounds.
pub proof fn lemma_product_bound(a: int, b: int, a_max: int, b_max: int)
    by (nonlinear_arith)
    requires
        -a_max <= a <= a_max,
        0 <= b <= b_max,
    ensures
        -(a_max * b_max) <= a * b <= a_max * b_max,
{
}

/// `n / d` rounded to the nearest integer, halves away from zero.
pub fn rounded_quotient(n: i128, d: i128) -> (q: i128)
    requires
        d > 0,
        -0x10_0000_0000_0000_0000_0000_0000 <= n <= 0x10_0000_0000_0000_0000_0000_0000,
        d <= 0x10_0000_0000_0000_0000_0000_0000,
    ensures
        q == round_div(n as int, d as int),
        n >= 0 ==> 0 <= q <= n + 1,
        n < 0 ==> -(-n + 1) <= q <= 0,
        n == 0 ==> q == 0,
{
    proof {
        lemma_round_div_bound(n as int, d as int);
    }
    if n >= 0 {
        (2 * n + d) / (2 * d)
    } else {
        -((2 * (-n) + d) / (2 * d))
    }
}

/// A multiple of the divisor divides without rounding.
pub proof fn lemma_round_div_exact(p: int, d: int)
    by (nonlinear_arith)
    requires
        d > 0,
    ensures
        round_div(p * d, d) == p,
{
}

/// The product of two bounded numbers is bounded by the product of the
/// bounds.
pub proof fn lemma_signed_product_bound(a: int, b: int, a_max: int, b_max: int)
    by (nonlinear_arith)
    requires
        -a_max <= a <= a_max,
        -b_max <= b <= b_max,
    ensures
        -(a_max * b_max) <= a * b <= a_max * b_max,
{
}

/// A rounded quotient is no larger than the bound of the exact one.
pub proof fn lemma_round_div_scaled_bound(n: int, d: int, bound: int)
    by (nonlinear_arith)
    requires
        d > 0,
        bound >= 0,
        -(bound * d) <= n <= bound * d,
    ensures
        -bound <= round_div(n, d) <= bound,
{
}

/// The component `delta` of a vector of length `norm`, after the vector is
/// scaled to `length`. The zero vector stays zero.
pub open spec fn scaled_component(delta: int, norm: int, length: int) -> int {
    if norm == 0 {
        0
    } else {
        round_div(delta * length, norm)
    }
}

/// `value` lies between `a` and `b`, either of which may be the larger.
pub open spec fn lies_between(value: int, a: int, b: int) -> bool {
    (a <= value <= b) || (b <= value <= a)
}

/// The point `length` away from `from` in the direction of `toward`, or
/// `from` itself where the two coincide.
pub open spec fn point_toward(from: Point, toward: Point, length: int) -> (int, int) {
    let norm = sqrt_floor(from.dist_sq(toward));
    (
        from.x + scaled_component(toward.x - from.x, norm, length),
        from.y + scaled_component(toward.y - from.y, norm, length),
    )
}

/// A component of a vector is no longer than the vector.
pub proof fn lemma_component_within_norm(delta: int, other: int, norm: int)
    requires
        is_sqrt_floor(square(delta) + square(other), norm),
    ensures
        -norm <= delta <= norm,
{
    lemma_square_of_magnitude(delta);
    lemma_square_of_magnitude(other);
    if magnitude(delta) > norm {
        lemma_square_monotonic(norm + 1, magnitude(delta));
    }
}

/// The component `delta` of a vector of length `norm`, after the vector is
/// scaled to `length`.
pub fn scale_component(delta: i64, norm: u32, length: u32) -> (scaled: i64)
    requires
        -(norm as int) <= delta <= norm,
    ensures
        scaled == scaled_component(delta as int, norm as int, length as int),
        -(length as int) <= scaled <= length,
        delta >= 0 ==> scaled >= 0,
        delta <= 0 ==> scaled <= 0,
        length <= norm ==> -magnitude(delta as int) <= scaled <= magnitude(delta as int),
{
    if norm == 0 {
        return 0;
    }
    proof {
        lemma_product_bound(delta as int, length as int, norm as int, length as int);
        lemma_product_bound(delta as int, length as int, 0xffff_ffff, 0xffff_ffff);
        assert(norm as int * length as int == length as int * norm as int) by (nonlinear_arith);
        lemma_round_div_scaled_bound(delta as int * length as int, norm as int, length as int);
        if length <= norm {
            lemma_signed_product_bound(
                delta as int,
                length as int,
                magnitude(delta as int),
                norm as int,
            );
            lemma_round_div_scaled_bound(
                delta as int * length as int,
                norm as int,
                magnitude(delta as int),
            );
        }
        assert(delta >= 0 ==> delta * length >= 0) by (nonlinear_arith)
            requires
                length >= 0,
        ;
        assert(delta <= 0 ==> delta * length <= 0) by (nonlinear_arith)
            requires
                length >= 0,
        ;
    }
    rounded_quotient(delta as i128 * length as i128, norm as i128) as i64
}

/// The point `length` away from `from` in the direction of `toward`, or
/// `from` itself where the two coincide.
pub fn extend_toward(from: Point, toward: Point, length: u32) -> (reached: Point)
    requires
        from.in_world(),
        toward.in_world(),
    ensures
        (reached.x as int, reached.y as int) == point_toward(from, toward, length as int),
        from == toward ==> reached == from,
        length <= sqrt_floor(from.dist_sq(toward)) ==> reached.in_world(),
        length <= sqrt_floor(from.dist_sq(toward)) ==> lies_between(
            reached.x as int,
            from.x as int,
            toward.x as int,
        ) && lies_between(reached.y as int, from.y as int, toward.y as int),
{
    let d2: u128 = distance_squared(from, toward);
    let norm: u32 = isqrt(d2 as u64);
    let dx: i64 = toward.x - from.x;
    let dy: i64 = toward.y - from.y;
    proof {
        assert(square(dx as int) == square(from.x - toward.x)) by (nonlinear_arith)
            requires
                dx == -(from.x - toward.x),
        ;
        assert(square(dy as int) == square(from.y - toward.y)) by (nonlinear_arith)
            requires
                dy == -(from.y - toward.y),
        ;
        lemma_component_within_norm(dx as int, dy as int, norm as int);
        lemma_component_within_norm(dy as int, dx as int, norm as int);
        if from == toward {
            assert(square(0) == 0);
            lemma_sqrt_floor_unique(0, 0, norm as int);
        }
    }
    let sx: i64 = scale_component(dx, norm, length);
    let sy: i64 = scale_component(dy, norm, length);
    Point { x: from.x + sx, y: from.y + sy }
}

} // verus!
