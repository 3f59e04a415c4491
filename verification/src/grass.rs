//! Blades of grass: the decoration that is scattered once and then only moved.

use vstd::prelude::*;
use crate::config::{INTERNAL_HEIGHT, INTERNAL_WIDTH};
use crate::fixed::{UNIT, is_fraction, lemma_lerp_between, lerp, lerp_spec};
use crate::traits::Drawable;

verus! {

/// A colour, each channel in thousandths of full intensity.
#[derive(Clone, Copy, Debug, PartialEq, Eq, Structural)]
pub struct Color {
    pub r: i64,
    pub g: i64,
    pub b: i64,
    pub a: i64,
}

/// The yellow that the default grass colours start from.
pub open spec fn yellow() -> Color {
    Color { r: 990, g: 980, b: 0, a: 1000 }
}

/// One blade of grass. The recycler moves `x`; nothing else changes after the
/// blade was made.
#[derive(Clone, Copy, Debug, PartialEq, Eq, Structural)]
pub struct GrassBlade {
    /// Offset of the sway, in thousandths of a radian.
    pub phase: i64,
    pub x: i64,
    pub y: i64,
    /// How much of the sway the blade resists, in thousandths.
    pub stiff: i64,
    pub height: i64,
    pub color: Color,
}

impl GrassBlade {
    /// The blade as it is, at another `x`.
    pub open spec fn at_x(self, x: i64) -> GrassBlade {
        GrassBlade { x, ..self }
    }
}

impl Default for GrassBlade {
    /// A transparent blade of no height at the origin.
    fn default() -> (blade: GrassBlade)
        ensures
            blade == (GrassBlade {
                phase: 0,
                x: 0,
                y: 0,
                stiff: 0,
                height: 0,
                color: Color { r: 0, g: 0, b: 0, a: 0 },
            }),
    {
        GrassBlade {
            phase: 0,
            x: 0,
            y: 0,
            stiff: 0,
            height: 0,
            color: Color { r: 0, g: 0, b: 0, a: 0 },
        }
    }
}

impl Drawable for GrassBlade {
    open spec fn position(&self) -> (i64, i64) {
        (self.x, self.y)
    }

    fn get_position(&self) -> (p: (i64, i64)) {
        (self.x, self.y)
    }
}

/// Gives a colour for a fraction of one. A builder asks it once for every
/// blade, with a fraction drawn at random.
pub trait ColorFunction {
    /// The colour that belongs to the fraction `perc`, in thousandths.
    spec fn color_for(&self, perc: i64) -> Color;

    /// Computes the colour that belongs to the fraction `perc`.
    fn float_to_color(&self, perc: i64) -> (color: Color)
        requires
            is_fraction(perc as int),
        ensures
            color == self.color_for(perc),
    ;
}

/// Yellow, with more green the larger the fraction: from seven tenths of full
/// green up to all of it.
pub struct DefaultColorFunction;

/// The colour that [`DefaultColorFunction`] gives.
pub open spec fn default_color(perc: i64) -> Color {
    Color { g: (700 + perc * 300 / (UNIT as int)) as i64, ..yellow() }
}

impl ColorFunction for DefaultColorFunction {
    open spec fn color_for(&self, perc: i64) -> Color {
        default_color(perc)
    }

    fn float_to_color(&self, perc: i64) -> (color: Color) {
        Color { r: 990, g: 700 + perc * 300 / UNIT, b: 0, a: 1000 }
    }
}

/// Draws from `fastrand::i32` over the half-open range from `low` to `high`.
/// The outside generator promises a value inside the range it is given, and
/// panics on an empty one, which `requires` leaves out. Nothing is said of
/// which value comes.
#[verifier::external_body]
fn random_below(low: i32, high: i32) -> (r: i32)
    requires
        low < high,
    ensures
        low <= r < high,
{
    fastrand::i32(low..high)
}

/// A random fraction of one, in thousandths.
pub fn rand_fraction() -> (t: i64)
    ensures
        is_fraction(t as int),
{
    random_below(0, 1000) as i64
}

/// A random point between `min` and `max`: some fraction of the way from the
/// first to the second. It is never `max`, unless the two are the same.
pub fn rand_f32(min: i64, max: i64) -> (r: i64)
    ensures
        exists|t: int| is_fraction(t) && r == #[trigger] lerp_spec(min as int, max as int, t),
        min <= max ==> min <= r <= max,
        min < max ==> r < max,
        max <= min ==> max <= r <= min,
{
    let t = rand_fraction();
    proof {
        lemma_lerp_between(min as int, max as int, t as int);
    }
    lerp(min, max, t)
}

/// The ranges from which blades of grass are drawn, and how many. A range is
/// a pair of ends; it may be given either way round, and a blade never takes
/// the second end unless the two are the same.
pub struct GrassBuilder<C: ColorFunction> {
    pub count: usize,
    pub phase: (i64, i64),
    pub x: (i64, i64),
    pub y: (i64, i64),
    pub height: (i64, i64),
    pub stiff: (i64, i64),
    pub color: C,
}

impl Default for GrassBuilder<DefaultColorFunction> {
    /// A builder of no blades, every range empty at zero.
    fn default() -> (builder: Self)
        ensures
            builder.count == 0,
            builder.phase == (0i64, 0i64),
            builder.x == (0i64, 0i64),
            builder.y == (0i64, 0i64),
            builder.height == (0i64, 0i64),
            builder.stiff == (0i64, 0i64),
    {
        GrassBuilder {
            count: 0,
            phase: (0, 0),
            x: (0, 0),
            y: (0, 0),
            height: (0, 0),
            stiff: (0, 0),
            color: DefaultColorFunction,
        }
    }
}

impl<C: ColorFunction> GrassBuilder<C> {
    /// The blade that the builder makes from six fractions: how far along its
    /// range each of `x`, `y`, `height`, `stiff` and `phase` lies, and the
    /// fraction that picks the colour.
    pub open spec fn blade_at(&self, tx: i64, ty: i64, th: i64, ts: i64, tc: i64, tp: i64) -> GrassBlade {
        GrassBlade {
            phase: lerp_spec(self.phase.0 as int, self.phase.1 as int, tp as int) as i64,
            x: lerp_spec(self.x.0 as int, self.x.1 as int, tx as int) as i64,
            y: lerp_spec(self.y.0 as int, self.y.1 as int, ty as int) as i64,
            stiff: lerp_spec(self.stiff.0 as int, self.stiff.1 as int, ts as int) as i64,
            height: lerp_spec(self.height.0 as int, self.height.1 as int, th as int) as i64,
            color: self.color.color_for(tc),
        }
    }

    /// Whether the builder can make `blade`: some six fractions give it.
    pub open spec fn may_build(&self, blade: GrassBlade) -> bool {
        exists|tx: i64, ty: i64, th: i64, ts: i64, tc: i64, tp: i64|
            is_fraction(tx as int) && is_fraction(ty as int) && is_fraction(th as int) && is_fraction(
                ts as int,
            ) && is_fraction(tc as int) && is_fraction(tp as int) && blade == #[trigger] self.blade_at(
                tx,
                ty,
                th,
                ts,
                tc,
                tp,
            )
    }

    /// Makes the blade that belongs to six given fractions.
    pub fn blade_from(&self, tx: i64, ty: i64, th: i64, ts: i64, tc: i64, tp: i64) -> (blade: GrassBlade)
        requires
            is_fraction(tx as int),
            is_fraction(ty as int),
            is_fraction(th as int),
            is_fraction(ts as int),
            is_fraction(tc as int),
            is_fraction(tp as int),
        ensures
            blade == self.blade_at(tx, ty, th, ts, tc, tp),
    {
        GrassBlade {
            phase: lerp(self.phase.0, self.phase.1, tp),
            x: lerp(self.x.0, self.x.1, tx),
            y: lerp(self.y.0, self.y.1, ty),
            stiff: lerp(self.stiff.0, self.stiff.1, ts),
            height: lerp(self.height.0, self.height.1, th),
            color: self.color.float_to_color(tc),
        }
    }

    /// Makes `count` blades, each from fractions drawn at random.
    pub fn build(&self) -> (blades: Vec<GrassBlade>)
        ensures
            blades@.len() == self.count,
            forall|i: int| 0 <= i < blades@.len() ==> self.may_build(#[trigger] blades@[i]),
    {
        let mut blades: Vec<GrassBlade> = Vec::new();
        let mut i: usize = 0;
        while i < self.count
            invariant
                i <= self.count,
                blades@.len() == i,
                forall|k: int| 0 <= k < blades@.len() ==> self.may_build(#[trigger] blades@[k]),
            decreases self.count - i,
        {
            let blade = GrassBlade::rand(self);
            blades.push(blade);
            i += 1;
        }
        blades
    }

    /// Every blade that the builder can make lies inside the builder's ranges,
    /// whichever way round a range was given.
    pub proof fn lemma_built_in_range(&self, blade: GrassBlade)
        requires
            self.may_build(blade),
        ensures
            self.x.0 <= self.x.1 ==> self.x.0 <= blade.x <= self.x.1,
            self.x.1 <= self.x.0 ==> self.x.1 <= blade.x <= self.x.0,
            self.y.0 <= self.y.1 ==> self.y.0 <= blade.y <= self.y.1,
            self.y.1 <= self.y.0 ==> self.y.1 <= blade.y <= self.y.0,
            self.height.0 <= self.height.1 ==> self.height.0 <= blade.height <= self.height.1,
            self.height.1 <= self.height.0 ==> self.height.1 <= blade.height <= self.height.0,
            self.stiff.0 <= self.stiff.1 ==> self.stiff.0 <= blade.stiff <= self.stiff.1,
            self.stiff.1 <= self.stiff.0 ==> self.stiff.1 <= blade.stiff <= self.stiff.0,
            self.phase.0 <= self.phase.1 ==> self.phase.0 <= blade.phase <= self.phase.1,
            self.phase.1 <= self.phase.0 ==> self.phase.1 <= blade.phase <= self.phase.0,
    {
        let (tx, ty, th, ts, tc, tp) = choose|tx: i64, ty: i64, th: i64, ts: i64, tc: i64, tp: i64|
            is_fraction(tx as int) && is_fraction(ty as int) && is_fraction(th as int) && is_fraction(
                ts as int,
            ) && is_fraction(tc as int) && is_fraction(tp as int) && blade == #[trigger] self.blade_at(
                tx,
                ty,
                th,
                ts,
                tc,
                tp,
            );
        lemma_lerp_between(self.phase.0 as int, self.phase.1 as int, tp as int);
        lemma_lerp_between(self.x.0 as int, self.x.1 as int, tx as int);
        lemma_lerp_between(self.y.0 as int, self.y.1 as int, ty as int);
        lemma_lerp_between(self.height.0 as int, self.height.1 as int, th as int);
        lemma_lerp_between(self.stiff.0 as int, self.stiff.1 as int, ts as int);
    }
}

/// The blade that stands at the whole pixel `(px, py)`, `h` pixels high, with
/// the given stiffness and the default colour for the fraction `tc`.
pub open spec fn scattered_at(px: i32, py: i32, h: i32, ts: i64, tc: i64) -> GrassBlade {
    GrassBlade {
        phase: 0,
        x: (px * UNIT) as i64,
        y: (py * UNIT) as i64,
        stiff: ts,
        height: (h * UNIT) as i64,
        color: default_color(tc),
    }
}

/// Whether `blade` can come from [`GrassBlade::scatter`]: it stands at a whole
/// pixel of the internal screen, is from three to nine pixels high, and its
/// stiffness and the fraction behind its colour are fractions of one.
pub open spec fn may_scatter(blade: GrassBlade) -> bool {
    exists|px: i32, py: i32, h: i32, ts: i64, tc: i64|
        0 <= px < INTERNAL_WIDTH && 0 <= py < INTERNAL_HEIGHT && 3 <= h < 10 && is_fraction(ts as int)
            && is_fraction(tc as int) && blade == #[trigger] scattered_at(px, py, h, ts, tc)
}

impl GrassBlade {
    /// Makes a blade from fractions drawn at random, inside the builder's
    /// ranges.
    pub fn rand<C: ColorFunction>(builder: &GrassBuilder<C>) -> (blade: GrassBlade)
        ensures
            builder.may_build(blade),
    {
        let tx = rand_fraction();
        let ty = rand_fraction();
        let th = rand_fraction();
        let ts = rand_fraction();
        let tc = rand_fraction();
        let tp = rand_fraction();
        builder.blade_from(tx, ty, th, ts, tc, tp)
    }

    /// Makes the blade that stands at the whole pixel `(px, py)`.
    pub fn scattered(px: i32, py: i32, h: i32, ts: i64, tc: i64) -> (blade: GrassBlade)
        requires
            is_fraction(tc as int),
        ensures
            blade == scattered_at(px, py, h, ts, tc),
    {
        GrassBlade {
            phase: 0,
            x: (px as i64) * UNIT,
            y: (py as i64) * UNIT,
            stiff: ts,
            height: (h as i64) * UNIT,
            color: DefaultColorFunction.float_to_color(tc),
        }
    }

    /// Makes a blade at a random whole pixel of the internal screen, three to
    /// nine pixels high, of random stiffness and default colour.
    pub fn scatter() -> (blade: GrassBlade)
        ensures
            may_scatter(blade),
    {
        let tc = rand_fraction();
        let px = random_below(0, INTERNAL_WIDTH as i32);
        let py = random_below(0, INTERNAL_HEIGHT as i32);
        let h = random_below(3, 10);
        let ts = rand_fraction();
        GrassBlade::scattered(px, py, h, ts, tc)
    }
}

/// Scatters `count` blades over the internal screen.
pub fn meadow(count: usize) -> (blades: Vec<GrassBlade>)
    ensures
        blades@.len() == count,
        forall|i: int| 0 <= i < blades@.len() ==> may_scatter(#[trigger] blades@[i]),
{
    let mut blades: Vec<GrassBlade> = Vec::new();
    let mut i: usize = 0;
    while i < count
        invariant
            i <= count,
            blades@.len() == i,
            forall|k: int| 0 <= k < blades@.len() ==> may_scatter(#[trigger] blades@[k]),
        decreases count - i,
    {
        let blade = GrassBlade::scatter();
        blades.push(blade);
        i += 1;
    }
    blades
}

} // verus!
