//! The world-wrap recycler: decoration that falls behind the tracked body is
//! moved one screen width ahead of it, and the other way round, so that a fixed
//! set of blades covers a world without end.

use vstd::prelude::*;
use crate::fixed::{UNIT, HALF_UNIT, in_world, magnitude};
use crate::grass::GrassBlade;

verus! {

/// A screen width of `width` logical pixels, in thousandths.
pub open spec fn span(width: u32) -> int {
    width * UNIT
}

/// Half of [`span`].
pub open spec fn half_span(width: u32) -> int {
    width * HALF_UNIT
}

/// Where a decoration at `dx` stands after one pass, the tracked body being at
/// `cx`: one width further right if it was more than half a width to the left,
/// one width further left if it was more than half a width to the right, and
/// where it was otherwise.
pub open spec fn recycle_spec(dx: int, cx: int, width: u32) -> int {
    if dx + half_span(width) < cx {
        dx + span(width)
    } else if dx - half_span(width) > cx {
        dx - span(width)
    } else {
        dx
    }
}

/// Whether a decoration at `dx` is within half a screen width of `cx`.
pub open spec fn in_band(dx: int, cx: int, width: u32) -> bool {
    magnitude(dx - cx) <= half_span(width)
}

/// Moves one decoration coordinate for a tracked body at `cx`.
pub fn recycle(dx: i64, cx: i64, width: u32) -> (r: i64)
    requires
        in_world(cx as int),
    ensures
        r == recycle_spec(dx as int, cx as int, width),
{
    let half: i64 = (width as i64) * HALF_UNIT;
    let full: i64 = (width as i64) * UNIT;
    if dx < cx - half {
        dx + full
    } else if dx > cx + half {
        dx - full
    } else {
        dx
    }
}

/// Runs one pass over the decoration: every blade is moved as [`recycle_spec`]
/// says, in place, and keeps everything but its `x`.
pub fn recycle_all(blades: &mut Vec<GrassBlade>, cx: i64, width: u32)
    requires
        in_world(cx as int),
    ensures
        final(blades)@.len() == old(blades)@.len(),
        forall|i: int|
            0 <= i < old(blades)@.len() ==> #[trigger] final(blades)@[i].x == recycle_spec(
                old(blades)@[i].x as int,
                cx as int,
                width,
            ),
        forall|i: int|
            0 <= i < old(blades)@.len() ==> #[trigger] final(blades)@[i] == old(blades)@[i].at_x(
                final(blades)@[i].x,
            ),
{
    let n = blades.len();
    let mut i: usize = 0;
    while i < n
        invariant
            i <= n,
            n == blades@.len(),
            n == old(blades)@.len(),
            in_world(cx as int),
            forall|j: int|
                0 <= j < i ==> #[trigger] blades@[j].x == recycle_spec(
                    old(blades)@[j].x as int,
                    cx as int,
                    width,
                ),
            forall|j: int| 0 <= j < i ==> #[trigger] blades@[j] == old(blades)@[j].at_x(blades@[j].x),
            forall|j: int| i <= j < n ==> #[trigger] blades@[j] == old(blades)@[j],
        decreases n - i,
    {
        let mut blade = blades[i];
        blade.x = recycle(blade.x, cx, width);
        blades.set(i, blade);
        i += 1;
    }
}

/// After one pass a decoration is no farther from the tracked body than half a
/// screen width, or than it was less one screen width, whichever is more: what
/// one correction cannot reach is the only excess left.
pub proof fn lemma_recycle_bound(dx: int, cx: int, width: u32)
    ensures
        magnitude(recycle_spec(dx, cx, width) - cx) <= half_span(width) || magnitude(
            recycle_spec(dx, cx, width) - cx,
        ) == magnitude(dx - cx) - span(width),
{
}

/// A decoration that was no farther than one and a half screen widths from the
/// tracked body is within half a screen width of it after one pass.
pub proof fn lemma_recycle_reaches_band(dx: int, cx: int, width: u32)
    requires
        magnitude(dx - cx) <= half_span(width) + span(width),
    ensures
        in_band(recycle_spec(dx, cx, width), cx, width),
{
}

/// The band is kept from frame to frame: a decoration that was within half a
/// screen width of the tracked body is so again after the next pass, as long as
/// the body moved by no more than one screen width in between.
pub proof fn lemma_recycle_keeps_band(dx: int, before: int, after: int, width: u32)
    requires
        in_band(dx, before, width),
        magnitude(after - before) <= span(width),
    ensures
        in_band(recycle_spec(dx, after, width), after, width),
{
}

/// A second pass in the same frame changes nothing, for a decoration that one
/// pass could bring into the band.
pub proof fn lemma_recycle_idempotent(dx: int, cx: int, width: u32)
    requires
        magnitude(dx - cx) <= half_span(width) + span(width),
    ensures
        recycle_spec(recycle_spec(dx, cx, width), cx, width) == recycle_spec(dx, cx, width),
{
}

/// A pass moves a decoration by one screen width or not at all, and leaves
/// alone what is in the band already.
pub proof fn lemma_recycle_step(dx: int, cx: int, width: u32)
    ensures
        recycle_spec(dx, cx, width) == dx || recycle_spec(dx, cx, width) == dx + span(width)
            || recycle_spec(dx, cx, width) == dx - span(width),
        in_band(dx, cx, width) ==> recycle_spec(dx, cx, width) == dx,
{
}

/// The invariant of the decoration: if every blade was within half a screen
/// width of the tracked body before the body moved, and the body moved by no
/// more than one screen width, then after a pass every blade is within half a
/// screen width of it again.
pub proof fn lemma_pass_keeps_band(
    blades: Seq<GrassBlade>,
    recycled: Seq<GrassBlade>,
    before: int,
    after: int,
    width: u32,
)
    requires
        recycled.len() == blades.len(),
        forall|i: int|
            0 <= i < blades.len() ==> (#[trigger] recycled[i]).x == recycle_spec(
                blades[i].x as int,
                after,
                width,
            ),
        forall|i: int| 0 <= i < blades.len() ==> in_band((#[trigger] blades[i]).x as int, before, width),
        magnitude(after - before) <= span(width),
    ensures
        forall|i: int| 0 <= i < recycled.len() ==> in_band((#[trigger] recycled[i]).x as int, after, width),
{
    assert forall|i: int| 0 <= i < recycled.len() implies in_band(
        (#[trigger] recycled[i]).x as int,
        after,
        width,
    ) by {
        assert(in_band(blades[i].x as int, before, width));
        lemma_recycle_keeps_band(blades[i].x as int, before, after, width);
    }
}

} // verus!
