//! The locomotive: the tracked body as the renderer sees it.

use vstd::prelude::*;
use crate::camscale::{Blit, CamScale, Camera2D, target_size};
use crate::physics::Collider;
use crate::config::SMOKE_DIVISOR;
use crate::fixed::{UNIT, HALF_UNIT, Vec2, magnitude};
use crate::texture::{DrawTextureParams, FilterMode, ImageSize};
use crate::traits::Drawable;

verus! {

/// How many particles the smoke emitter gives off in one cycle before anything
/// was set.
pub const DEFAULT_SMOKE: u32 = 8;

/// The scale at which the locomotive and the track are presented.
pub const SPRITE_SCALE: i64 = 2000;

/// The locomotive. Place and rotation are read from the solver; `smoke` is how
/// many particles the emitter gives off in one cycle.
#[derive(Clone, Copy, Debug, PartialEq, Eq, Structural)]
pub struct Engine {
    pub x: i64,
    pub y: i64,
    pub rotation: i64,
    pub img: ImageSize,
    pub smoke: u32,
}

/// All that painting the locomotive takes: the camera of its logical pass, the
/// connecting rod that is drawn over the sprite, and the draw that ends the
/// pass.
#[derive(Clone, Copy, Debug, PartialEq, Eq, Structural)]
pub struct EngineDrawing {
    pub camera: Camera2D,
    /// The angle of the wheel, in thousandths of a radian.
    pub wheel_phase: i64,
    /// The centre about which the rod's near end turns.
    pub rod_centre: Vec2,
    /// How far from that centre the near end is.
    pub rod_radius: i64,
    /// The rod's far end.
    pub rod_end: Vec2,
    pub blit: Blit,
}

/// A value in thousandths cut down to whole units, as a count: nothing for a
/// negative value, the largest count for what is too large.
pub open spec fn whole_count(v: int) -> int {
    if v < 0 {
        0
    } else if v / (UNIT as int) > u32::MAX {
        u32::MAX as int
    } else {
        v / (UNIT as int)
    }
}

/// The amount of smoke for a horizontal speed: the speed's magnitude in whole
/// units, a fifth of it.
pub open spec fn smoke_amount_spec(vx: int) -> int {
    whole_count(magnitude(vx)) / (SMOKE_DIVISOR as int)
}

/// Cuts a value in thousandths down to whole units, as a count.
pub fn to_whole_count(v: i64) -> (n: u32)
    ensures
        n == whole_count(v as int),
{
    if v < 0 {
        0
    } else if v / UNIT > u32::MAX as i64 {
        u32::MAX
    } else {
        (v / UNIT) as u32
    }
}

/// Derives the amount of smoke from the tracked body's horizontal speed.
pub fn smoke_amount(vx: i64) -> (amount: u32)
    ensures
        amount == smoke_amount_spec(vx as int),
{
    let whole: u32 = if vx == i64::MIN {
        u32::MAX
    } else if vx < 0 {
        to_whole_count(-vx)
    } else {
        to_whole_count(vx)
    };
    whole / SMOKE_DIVISOR
}

impl Engine {
    /// A locomotive at the origin, upright, with the emitter's default smoke.
    pub fn new(img: ImageSize) -> (engine: Engine)
        ensures
            engine == (Engine { x: 0, y: 0, rotation: 0, img, smoke: DEFAULT_SMOKE }),
    {
        Engine { x: 0, y: 0, rotation: 0, img, smoke: DEFAULT_SMOKE }
    }

    /// The box that collides for the locomotive: as large as its image, its
    /// centre a hundred pixels above the body's origin, of mass one hundred,
    /// with friction one half and no bounce.
    pub fn make_collider(&self) -> (collider: Collider)
        ensures
            collider == (Collider {
                half_width: (self.img.width * HALF_UNIT) as i64,
                half_height: (self.img.height * HALF_UNIT) as i64,
                translation: Vec2 { x: 0, y: -100_000i64 },
                friction: 500,
                restitution: 0,
                mass: Some(100_000i64),
            }),
    {
        Collider {
            half_width: (self.img.width as i64) * HALF_UNIT,
            half_height: (self.img.height as i64) * HALF_UNIT,
            translation: Vec2 { x: 0, y: -100_000 },
            friction: 500,
            restitution: 0,
            mass: Some(100_000),
        }
    }

    /// Sets the amount of smoke to `amt`, cut down to a whole count.
    pub fn set_smoke(&mut self, amt: i64)
        ensures
            final(self).smoke == whole_count(amt as int),
            final(self).x == old(self).x,
            final(self).y == old(self).y,
            final(self).rotation == old(self).rotation,
            final(self).img == old(self).img,
    {
        self.smoke = to_whole_count(amt);
    }

    /// Works out how the locomotive is painted on an output surface: a logical
    /// pass at scale two with the camera at the origin, the wheel turned
    /// against the distance travelled, and the pass shown at the locomotive's
    /// place and rotation.
    pub fn draw(&self, surface: ImageSize) -> (drawing: EngineDrawing)
        requires
            self.x > i64::MIN,
        ensures
            drawing.camera == (Camera2D {
                render_target: target_size(surface, SPRITE_SCALE),
                target: Vec2 { x: 0, y: 0 },
            }),
            drawing.wheel_phase == -(self.x as int),
            drawing.rod_centre == (Vec2 { x: 15_000, y: 25_000 }),
            drawing.rod_radius == 3_000,
            drawing.rod_end == (Vec2 { x: 35_000, y: 25_000 }),
            drawing.blit == (Blit {
                source: target_size(surface, SPRITE_SCALE),
                x: self.x,
                y: self.y,
                params: DrawTextureParams {
                    dest_size: Some(surface),
                    rotation: self.rotation,
                    flip_x: false,
                    flip_y: false,
                },
                filter: FilterMode::Nearest,
            }),
    {
        let mut cam_scale = CamScale::new(SPRITE_SCALE);
        let camera = cam_scale.activate(surface);
        let wheel_phase = -self.x;
        let blit = cam_scale.render(
            self.x,
            self.y,
            Some(DrawTextureParams { dest_size: None, rotation: self.rotation, flip_x: false, flip_y: false }),
            surface,
        );
        EngineDrawing {
            camera,
            wheel_phase,
            rod_centre: Vec2 { x: 15_000, y: 25_000 },
            rod_radius: 3_000,
            rod_end: Vec2 { x: 35_000, y: 25_000 },
            blit,
        }
    }
}

impl Drawable for Engine {
    open spec fn position(&self) -> (i64, i64) {
        (self.x, self.y)
    }

    fn get_position(&self) -> (p: (i64, i64)) {
        (self.x, self.y)
    }
}

} // verus!
