//! Fixed-point arithmetic on thousandths.

use vstd::prelude::*;

verus! {

/// Fixed-point steps in one whole unit (one logical pixel, one radian, a ratio of one).
pub const UNIT: i64 = 1000;

/// Half of [`UNIT`].
pub const HALF_UNIT: i64 = 500;

/// Largest magnitude of a coordinate that the camera and the recycler work with:
/// ten to the fifteenth logical pixels. Inside it no sum of a few coordinates and
/// screen widths leaves 64 bits.
pub const WORLD_LIMIT: i64 = 1_000_000_000_000_000_000;

/// A point or a displacement in the plane, y pointing down.
#[derive(Clone, Copy, Debug, PartialEq, Eq, Structural)]
pub struct Vec2 {
    pub x: i64,
    pub y: i64,
}

/// Whether `v` lies inside the world.
pub open spec fn in_world(v: int) -> bool {
    -WORLD_LIMIT <= v <= WORLD_LIMIT
}

/// The distance of `v` from zero.
pub open spec fn magnitude(v: int) -> int {
    if v < 0 {
        -v
    } else {
        v
    }
}

/// Whether `v` is a whole number of units.
pub open spec fn is_whole(v: int) -> bool {
    v % (UNIT as int) == 0
}

/// `v` rounded to the nearest whole unit, a tie going away from zero.
pub open spec fn round_spec(v: int) -> int {
    if v >= 0 {
        (v + HALF_UNIT) / (UNIT as int) * UNIT
    } else {
        -((-v + HALF_UNIT) / (UNIT as int) * UNIT)
    }
}

/// Whether `t` is a fraction of one: at least zero and less than a whole unit.
pub open spec fn is_fraction(t: int) -> bool {
    0 <= t < UNIT
}

/// The point a fraction `t` of the way from `min` to `max`, rounded down.
pub open spec fn lerp_spec(min: int, max: int, t: int) -> int {
    min + (max - min) * t / (UNIT as int)
}

/// Tests whether a coordinate lies inside the world.
pub fn is_in_world(v: i64) -> (inside: bool)
    ensures
        inside == in_world(v as int),
{
    -WORLD_LIMIT <= v && v <= WORLD_LIMIT
}

/// Rounds a coordinate to the nearest whole unit, a tie going away from zero.
pub fn round(v: i64) -> (r: i64)
    requires
        in_world(v as int),
    ensures
        r == round_spec(v as int),
        in_world(r as int),
{
    if v >= 0 {
        (v + HALF_UNIT) / UNIT * UNIT
    } else {
        -((-v + HALF_UNIT) / UNIT * UNIT)
    }
}

/// Finds the point a fraction `t` of the way from `min` to `max`, rounded down.
pub fn lerp(min: i64, max: i64, t: i64) -> (r: i64)
    requires
        is_fraction(t as int),
    ensures
        r == lerp_spec(min as int, max as int, t as int),
{
    let span: i128 = max as i128 - min as i128;
    proof {
        lemma_lerp_between(min as int, max as int, t as int);
        assert(-0x1_0000_0000_0000_0000 * 1000 <= span * t <= 0x1_0000_0000_0000_0000 * 1000)
            by (nonlinear_arith)
            requires
                -0x1_0000_0000_0000_0000 <= span <= 0x1_0000_0000_0000_0000,
                0 <= t < 1000,
        ;
    }
    let scaled: i128 = span * (t as i128);
    let step: i128 = if scaled >= 0 {
        scaled / 1000
    } else {
        -((-scaled + 999) / 1000)
    };
    (min as i128 + step) as i64
}

/// A point between two ends lies between them, at the first end for the
/// fraction zero, and short of the second end wherever the ends differ.
pub proof fn lemma_lerp_between(min: int, max: int, t: int)
    requires
        is_fraction(t),
    ensures
        min <= max ==> min <= lerp_spec(min, max, t) <= max,
        min < max ==> lerp_spec(min, max, t) < max,
        max <= min ==> max <= lerp_spec(min, max, t) <= min,
        t == 0 ==> lerp_spec(min, max, t) == min,
{
    let d = max - min;
    assert(d >= 0 ==> 0 <= d * t <= d * 999) by (nonlinear_arith)
        requires
            0 <= t <= 999,
    ;
    assert(d <= 0 ==> d * 999 <= d * t <= 0) by (nonlinear_arith)
        requires
            0 <= t <= 999,
    ;
}

/// A rounded value is whole, lies within half a unit of what was rounded, and
/// on a tie is the one farther from zero.
pub proof fn lemma_round_is_nearest(v: int)
    ensures
        is_whole(round_spec(v)),
        2 * magnitude(v - round_spec(v)) <= UNIT,
        2 * magnitude(v - round_spec(v)) == UNIT ==> magnitude(round_spec(v)) > magnitude(v),
{
}

/// Only one whole value meets what [`lemma_round_is_nearest`] states.
pub proof fn lemma_round_is_unique(v: int, r: int)
    requires
        is_whole(r),
        2 * magnitude(v - r) <= UNIT,
        2 * magnitude(v - r) == UNIT ==> magnitude(r) > magnitude(v),
    ensures
        r == round_spec(v),
{
}

/// Rounding leaves a whole value as it is.
pub proof fn lemma_round_keeps_whole(v: int)
    requires
        is_whole(v),
    ensures
        round_spec(v) == v,
{
}

/// Rounding twice is rounding once.
pub proof fn lemma_round_idempotent(v: int)
    ensures
        round_spec(round_spec(v)) == round_spec(v),
{
    lemma_round_is_nearest(v);
    lemma_round_keeps_whole(round_spec(v));
}

} // verus!
