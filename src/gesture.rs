//! The drag gesture: the momentum that a press and its release impart.
use vstd::prelude::*;

verus! {

/// A pointer position in whole logical pixels.
#[derive(Clone, Copy, Debug, PartialEq, Eq, Structural)]
pub struct Point {
    pub x: i32,
    pub y: i32,
}

/// `r` is the integer square root of `x`, rounded down.
pub open spec fn is_floor_sqrt(r: int, x: int) -> bool {
    0 <= r && r * r <= x < (r + 1) * (r + 1)
}

/// The square root of `x`, rounded down.
pub open spec fn floor_sqrt(x: nat) -> nat {
    choose|r: nat| is_floor_sqrt(r as int, x as int)
}

/// Squared distance between two points.
pub open spec fn dist_sq(a: Point, b: Point) -> int {
    (b.x - a.x) * (b.x - a.x) + (b.y - a.y) * (b.y - a.y)
}

/// Momentum, in thousandths, of a drag from `a` to `b`: a fifth of the
/// distance, that is `200 * distance` thousandths, rounded down.
pub open spec fn momentum_spec(a: Point, b: Point) -> nat {
    floor_sqrt((40000 * dist_sq(a, b)) as nat)
}

/// At most one integer is the rounded-down square root of `x`.
pub proof fn lemma_floor_sqrt_unique(r1: int, r2: int, x: int)
    requires
        is_floor_sqrt(r1, x),
        is_floor_sqrt(r2, x),
    ensures
        r1 == r2,
{
    if r1 < r2 {
        assert((r1 + 1) * (r1 + 1) <= r2 * r2) by (nonlinear_arith)
            requires 0 <= r1 + 1 <= r2;
    } else if r2 < r1 {
        assert((r2 + 1) * (r2 + 1) <= r1 * r1) by (nonlinear_arith)
            requires 0 <= r2 + 1 <= r1;
    }
}

/// A witness `r` of `is_floor_sqrt` is `floor_sqrt`.
pub proof fn lemma_floor_sqrt_is(r: nat, x: nat)
    requires
        is_floor_sqrt(r as int, x as int),
    ensures
        floor_sqrt(x) == r,
{
    let c = floor_sqrt(x);
    assert(is_floor_sqrt(c as int, x as int));
    lemma_floor_sqrt_unique(c as int, r as int, x as int);
}

/// Largest value whose square root `isqrt` takes.
pub const ISQRT_LIMIT: u128 = 0x3_ffff_ffff_ffff_ffff_ffff;

/// The square root of `x`, rounded down.
pub fn isqrt(x: u128) -> (r: u64)
    requires
        x <= ISQRT_LIMIT,
    ensures
        r == floor_sqrt(x as nat),
        r < 0x200_0000_0000,
{
    let mut lo: u128 = 0;
    let mut hi: u128 = 0x200_0000_0000;
    assert(hi * hi > ISQRT_LIMIT) by (nonlinear_arith)
        requires hi == 0x200_0000_0000u128;
    while hi - lo > 1
        invariant
            lo < hi <= 0x200_0000_0000,
            lo * lo <= x,
            x < hi * hi,
        decreases hi - lo,
    {
        let mid = lo + (hi - lo) / 2;
        assert(mid * mid <= 0x200_0000_0000u128 * 0x200_0000_0000u128) by (nonlinear_arith)
            requires mid < 0x200_0000_0000u128, mid >= 0;
        if mid * mid <= x {
            lo = mid;
        } else {
            hi = mid;
        }
    }
    assert(hi == lo + 1);
    proof {
        lemma_floor_sqrt_is(lo as nat, x as nat);
    }
    lo as u64
}

/// Momentum, in thousandths, that a drag from `from` to `to` imparts: a
/// fifth of the distance between them, rounded down to a thousandth.
pub fn drag_momentum(from: Point, to: Point) -> (r: u64)
    ensures
        r == momentum_spec(from, to),
{
    let dx: i64 = to.x as i64 - from.x as i64;
    let dy: i64 = to.y as i64 - from.y as i64;
    let ax: u128 = if dx < 0 { (-dx) as u128 } else { dx as u128 };
    let ay: u128 = if dy < 0 { (-dy) as u128 } else { dy as u128 };
    assert(ax * ax <= 0xffff_ffff_ffff_ffffu128) by (nonlinear_arith)
        requires ax <= 0xffff_ffffu128;
    assert(ay * ay <= 0xffff_ffff_ffff_ffffu128) by (nonlinear_arith)
        requires ay <= 0xffff_ffffu128;
    let d2: u128 = ax * ax + ay * ay;
    assert(ax * ax == dx * dx) by (nonlinear_arith)
        requires ax == dx || ax == -dx;
    assert(ay * ay == dy * dy) by (nonlinear_arith)
        requires ay == dy || ay == -dy;
    assert(d2 == dist_sq(from, to));
    isqrt(40000 * d2)
}

/// A press and a release at the same position impart no momentum.
pub proof fn lemma_still_drag(p: Point)
    ensures
        momentum_spec(p, p) == 0,
{
    assert(dist_sq(p, p) == 0);
    lemma_floor_sqrt_is(0, 0);
}

} // verus!
