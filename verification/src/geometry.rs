//! Integer geometry: division that rounds toward zero, coordinates that
//! saturate, square roots, the despawn bounds and the box overlap test.

use vstd::prelude::*;
use crate::consts::{BASE_SPEED, COORD_MAX, DESPAWN_MARGIN, TICK_RATE, UNIT};
use crate::entity::WinSize;

verus! {

/// The quotient of `a` by a positive `b`, rounded toward zero.
pub open spec fn trunc_div(a: int, b: int) -> int
    recommends
        b > 0,
{
    if a >= 0 {
        a / b
    } else {
        -((-a) / b)
    }
}

/// Computes [`trunc_div`].
pub fn div_toward_zero(a: i128, b: i128) -> (q: i128)
    requires
        b > 0,
        a > i128::MIN,
    ensures
        q == trunc_div(a as int, b as int),
{
    a / b
}

/// The product of two 64-bit numbers, and its quotient by a positive number,
/// stay far inside the 128-bit range.
pub proof fn product_fits(a: i64, b: i64)
    ensures
        -0x4000_0000_0000_0000_0000_0000_0000_0000 <= a * b
            <= 0x4000_0000_0000_0000_0000_0000_0000_0000,
        forall|d: int|
            d > 0 ==> -0x4000_0000_0000_0000_0000_0000_0000_0000 <= #[trigger] trunc_div(a * b, d)
                <= 0x4000_0000_0000_0000_0000_0000_0000_0000,
{
    let m: int = 0x8000_0000_0000_0000;
    assert(-(m * m) <= a * b <= m * m) by (nonlinear_arith)
        requires
            -m <= a <= m,
            -m <= b <= m,
            m >= 0,
    ;
    assert(0x8000_0000_0000_0000int * 0x8000_0000_0000_0000int
        == 0x4000_0000_0000_0000_0000_0000_0000_0000);
    let p = a * b;
    assert forall|d: int| d > 0 implies -0x4000_0000_0000_0000_0000_0000_0000_0000
        <= #[trigger] trunc_div(p, d) <= 0x4000_0000_0000_0000_0000_0000_0000_0000 by {
        if p >= 0 {
            assert(0 <= p / d <= p) by (nonlinear_arith)
                requires
                    p >= 0,
                    d > 0,
            ;
        } else {
            assert(0 <= (-p) / d <= -p) by (nonlinear_arith)
                requires
                    -p >= 0,
                    d > 0,
            ;
        }
    }
}

/// The coordinate nearest to `v` within the range the simulation keeps.
pub open spec fn clamp_coord(v: int) -> i64 {
    if v > COORD_MAX {
        COORD_MAX
    } else if v < -COORD_MAX {
        (-COORD_MAX) as i64
    } else {
        v as i64
    }
}

/// Computes [`clamp_coord`].
pub fn saturate(v: i128) -> (c: i64)
    ensures
        c == clamp_coord(v as int),
        -COORD_MAX <= c <= COORD_MAX,
{
    if v > COORD_MAX as i128 {
        COORD_MAX
    } else if v < -(COORD_MAX as i128) {
        -COORD_MAX
    } else {
        v as i64
    }
}

/// Distance covered in one tick at velocity `v`: the velocity times the base
/// speed times the length of a tick, rounded toward zero.
pub open spec fn tick_distance(v: i64) -> int {
    trunc_div(v * BASE_SPEED, TICK_RATE as int)
}

/// Where a coordinate `c` is after one tick at velocity `v`.
pub open spec fn moved_coord(c: i64, v: i64) -> i64 {
    clamp_coord(c + tick_distance(v))
}

/// Computes [`moved_coord`].
pub fn move_coord(c: i64, v: i64) -> (r: i64)
    ensures
        r == moved_coord(c, v),
        -COORD_MAX <= r <= COORD_MAX,
{
    proof {
        product_fits(v, BASE_SPEED);
    }
    let d: i128 = div_toward_zero(v as i128 * BASE_SPEED as i128, TICK_RATE as i128);
    saturate(c as i128 + d)
}

/// Whether a point lies beyond the window by more than the despawn margin on
/// any side. The window is centred on the origin; a point at the margin
/// itself is still inside.
pub open spec fn beyond_margin(win: WinSize, x: i64, y: i64) -> bool {
    ||| 2 * y > win.h + 2 * DESPAWN_MARGIN
    ||| 2 * y < -win.h - 2 * DESPAWN_MARGIN
    ||| 2 * x > win.w + 2 * DESPAWN_MARGIN
    ||| 2 * x < -win.w - 2 * DESPAWN_MARGIN
}

/// Computes [`beyond_margin`].
pub fn is_beyond_margin(win: &WinSize, x: i64, y: i64) -> (out: bool)
    ensures
        out == beyond_margin(*win, x, y),
{
    let w: i128 = win.w as i128 + 2 * DESPAWN_MARGIN as i128;
    let h: i128 = win.h as i128 + 2 * DESPAWN_MARGIN as i128;
    let x2: i128 = 2 * x as i128;
    let y2: i128 = 2 * y as i128;
    y2 > h || y2 < -h || x2 > w || x2 < -w
}

/// In a window of even height, a point straight above the centre is beyond
/// the margin exactly when it is higher than half the height plus the margin.
pub proof fn margin_is_exclusive(win: WinSize, y: i64)
    requires
        win.w >= 0,
        win.h >= 0,
        win.h % 2 == 0,
    ensures
        beyond_margin(win, 0, y) <==> (y > win.h / 2 + DESPAWN_MARGIN || y < -(win.h / 2)
            - DESPAWN_MARGIN),
{
}

/// Half of the width or height of a box: the sprite's size times its scale.
pub open spec fn half_extent(size: i64, scale: i64) -> int {
    trunc_div(size * scale, UNIT as int)
}

/// A box centred on a point.
#[derive(Clone, Copy, PartialEq, Eq, Debug)]
pub struct Aabb {
    pub center: (i64, i64),
    pub half: (i128, i128),
}

impl Aabb {
    /// Whether two boxes share inner points: on both axes the lower edge of
    /// each lies below the upper edge of the other.
    pub open spec fn overlaps(self, other: Aabb) -> bool {
        &&& self.center.0 - self.half.0 < other.center.0 + other.half.0
        &&& self.center.0 + self.half.0 > other.center.0 - other.half.0
        &&& self.center.1 - self.half.1 < other.center.1 + other.half.1
        &&& self.center.1 + self.half.1 > other.center.1 - other.half.1
    }

    /// Whether the half extents are small enough to add to a coordinate.
    pub open spec fn bounded(self) -> bool {
        &&& -0x4000_0000_0000_0000_0000_0000_0000_0000 <= self.half.0
            <= 0x4000_0000_0000_0000_0000_0000_0000_0000
        &&& -0x4000_0000_0000_0000_0000_0000_0000_0000 <= self.half.1
            <= 0x4000_0000_0000_0000_0000_0000_0000_0000
    }

    /// The box of a sprite of the given size and scale at `center`.
    pub open spec fn of_sprite(center: (i64, i64), size: (i64, i64), scale: (i64, i64)) -> Aabb {
        Aabb {
            center,
            half: (half_extent(size.0, scale.0) as i128, half_extent(size.1, scale.1) as i128),
        }
    }

    /// Builds the box of a sprite of the given size and scale at `center`.
    pub fn from_sprite(center: (i64, i64), size: (i64, i64), scale: (i64, i64)) -> (b: Aabb)
        ensures
            b == Aabb::of_sprite(center, size, scale),
            b.bounded(),
    {
        proof {
            product_fits(size.0, scale.0);
            product_fits(size.1, scale.1);
        }
        let hx: i128 = div_toward_zero(size.0 as i128 * scale.0 as i128, UNIT as i128);
        let hy: i128 = div_toward_zero(size.1 as i128 * scale.1 as i128, UNIT as i128);
        Aabb { center, half: (hx, hy) }
    }

    /// Computes [`Aabb::overlaps`].
    pub fn collides(&self, other: &Aabb) -> (hit: bool)
        requires
            self.bounded(),
            other.bounded(),
        ensures
            hit == self.overlaps(*other),
    {
        let ax: i128 = self.center.0 as i128;
        let ay: i128 = self.center.1 as i128;
        let bx: i128 = other.center.0 as i128;
        let by: i128 = other.center.1 as i128;
        ax - self.half.0 < bx + other.half.0 && ax + self.half.0 > bx - other.half.0 && ay
            - self.half.1 < by + other.half.1 && ay + self.half.1 > by - other.half.1
    }
}

/// Overlap does not depend on the order of the two boxes.
pub proof fn overlap_is_symmetric(a: Aabb, b: Aabb)
    ensures
        a.overlaps(b) == b.overlaps(a),
{
}

/// Whether `r` is the integer square root of `n`: the largest number whose
/// square does not exceed `n`.
pub open spec fn is_sqrt(n: int, r: int) -> bool {
    0 <= r && r * r <= n < (r + 1) * (r + 1)
}

/// The integer square root of `n`, zero for a negative `n`.
pub open spec fn floor_sqrt(n: int) -> int {
    if n < 0 {
        0
    } else {
        choose|r: int| is_sqrt(n, r)
    }
}

/// The distance of two points, rounded down to a whole length unit.
pub open spec fn distance(a: (i64, i64), b: (i64, i64)) -> int {
    floor_sqrt((a.0 - b.0) * (a.0 - b.0) + (a.1 - b.1) * (a.1 - b.1))
}

/// The integer square root of `n`.
pub fn isqrt(n: u64) -> (r: u64)
    ensures
        is_sqrt(n as int, r as int),
        r == floor_sqrt(n as int),
        r <= 0xffff_ffff,
{
    let mut lo: u64 = 0;
    let mut hi: u64 = 0x1_0000_0000;
    assert(0x1_0000_0000int * 0x1_0000_0000int > n) by (nonlinear_arith)
        requires
            n <= 0xffff_ffff_ffff_ffff,
    ;
    while hi - lo > 1
        invariant
            lo < hi <= 0x1_0000_0000,
            lo * lo <= n,
            (hi as int) * (hi as int) > n,
        decreases hi - lo,
    {
        let mid: u64 = lo + (hi - lo) / 2;
        assert(mid * mid <= 0xffff_ffff * 0xffff_ffff) by (nonlinear_arith)
            requires
                0 <= mid <= 0xffff_ffff,
        ;
        if mid * mid <= n {
            lo = mid;
        } else {
            hi = mid;
        }
    }
    proof {
        assert(is_sqrt(n as int, lo as int));
        sqrt_is_unique(n as int, lo as int, floor_sqrt(n as int));
    }
    lo
}

/// The number nearest to `v` that a 64-bit signed integer holds.
pub open spec fn clamp_i64(v: int) -> i64 {
    if v > i64::MAX {
        i64::MAX
    } else if v < i64::MIN {
        i64::MIN
    } else {
        v as i64
    }
}

/// Computes [`clamp_i64`].
pub fn saturate_i64(v: i128) -> (c: i64)
    ensures
        c == clamp_i64(v as int),
{
    if v > i64::MAX as i128 {
        i64::MAX
    } else if v < i64::MIN as i128 {
        i64::MIN
    } else {
        v as i64
    }
}

/// Computes [`distance`] for two points in the coordinate range.
pub fn distance_between(a: (i64, i64), b: (i64, i64)) -> (d: u64)
    requires
        -COORD_MAX <= a.0 <= COORD_MAX,
        -COORD_MAX <= a.1 <= COORD_MAX,
        -COORD_MAX <= b.0 <= COORD_MAX,
        -COORD_MAX <= b.1 <= COORD_MAX,
    ensures
        d == distance(a, b),
{
    let dx: i64 = a.0 - b.0;
    let dy: i64 = a.1 - b.1;
    assert(0 <= dx * dx <= 4_000_000_000_000_000_000) by (nonlinear_arith)
        requires
            -2_000_000_000 <= dx <= 2_000_000_000,
    ;
    assert(0 <= dy * dy <= 4_000_000_000_000_000_000) by (nonlinear_arith)
        requires
            -2_000_000_000 <= dy <= 2_000_000_000,
    ;
    let sq: u64 = (dx * dx) as u64 + (dy * dy) as u64;
    isqrt(sq)
}

/// The square root of a number is unique.
pub proof fn sqrt_is_unique(n: int, r1: int, r2: int)
    requires
        is_sqrt(n, r1),
        is_sqrt(n, r2),
    ensures
        r1 == r2,
{
    if r1 < r2 {
        assert((r1 + 1) * (r1 + 1) <= r2 * r2) by (nonlinear_arith)
            requires
                0 <= r1 + 1 <= r2,
        ;
    } else if r2 < r1 {
        assert((r2 + 1) * (r2 + 1) <= r1 * r1) by (nonlinear_arith)
            requires
                0 <= r2 + 1 <= r1,
        ;
    }
}

} // verus!
