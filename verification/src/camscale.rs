//! The fixed-resolution presenter and the camera that follows the tracked body.
//!
//! A frame is drawn into a small offscreen target through a camera, and the
//! target is then stretched over the output surface with nearest-neighbour
//! sampling. The presenter decides the target's size, where the camera looks,
//! and what the final stretch is; the caller owns the pixels.

use vstd::prelude::*;
use crate::fixed::{UNIT, HALF_UNIT, Vec2, in_world, is_whole, lemma_round_idempotent, round, round_spec};
use crate::texture::{DrawTextureParams, FilterMode, ImageSize};

verus! {

/// The projection that `activate` installs: orthographic, y pointing down,
/// centred on `target`. One logical pixel is one pixel of the render target, so
/// the zoom that takes logical lengths to the target's half-extents is
/// `2 / width` by `2 / height`.
#[derive(Clone, Copy, Debug, PartialEq, Eq, Structural)]
pub struct Camera2D {
    /// The size of the render target that is drawn into.
    pub render_target: ImageSize,
    /// The focal point, in thousandths of a logical pixel.
    pub target: Vec2,
}

/// The one draw that ends a frame's logical pass: the render target, stretched.
#[derive(Clone, Copy, Debug, PartialEq, Eq, Structural)]
pub struct Blit {
    /// The size of the render target that is shown.
    pub source: ImageSize,
    /// Where on the output surface it is put, in thousandths of a pixel.
    pub x: i64,
    pub y: i64,
    pub params: DrawTextureParams,
    pub filter: FilterMode,
}

/// The presenter. `scale` is how many output pixels one logical pixel covers,
/// in thousandths; `render_target` is the size of the offscreen target while a
/// logical pass is open.
#[derive(Clone, Copy, Debug, PartialEq, Eq, Structural)]
pub struct CamScale {
    pub scale: i64,
    pub target: Vec2,
    pub render_target: Option<ImageSize>,
}

/// An output length divided by the scale, in whole logical pixels, cut off at
/// what a target's side can be.
pub open spec fn scaled_down(length: u32, scale: i64) -> int {
    let q = length * UNIT / (scale as int);
    if q > u32::MAX {
        u32::MAX as int
    } else {
        q
    }
}

/// The size of the render target for an output surface.
pub open spec fn target_size(surface: ImageSize, scale: i64) -> ImageSize {
    ImageSize {
        width: scaled_down(surface.width, scale) as u32,
        height: scaled_down(surface.height, scale) as u32,
    }
}

/// Where the camera looks when the tracked body is at `(x, y)`: at the body's
/// place rounded to whole logical pixels, shifted right by `offset`.
pub open spec fn focus_spec(x: i64, y: i64, offset: i64) -> Vec2 {
    Vec2 { x: (round_spec(x as int) + offset) as i64, y: round_spec(y as int) as i64 }
}

fn scale_down(length: u32, scale: i64) -> (q: u32)
    requires
        scale > 0,
    ensures
        q == scaled_down(length, scale),
{
    let q: i64 = (length as i64) * UNIT / scale;
    assert(0 <= q <= length * UNIT) by (nonlinear_arith)
        requires
            q == (length * UNIT) / (scale as int),
            scale > 0,
            length * UNIT >= 0,
    ;
    if q > u32::MAX as i64 {
        u32::MAX
    } else {
        q as u32
    }
}

impl Camera2D {
    /// Where a logical point falls in the render target, in thousandths of a
    /// target pixel from its top left corner.
    pub open spec fn project_spec(self, x: int, y: int) -> (int, int) {
        (
            x - self.target.x + self.render_target.width * HALF_UNIT,
            y - self.target.y + self.render_target.height * HALF_UNIT,
        )
    }

    /// Whether a logical point falls inside the render target.
    pub open spec fn sees(self, x: int, y: int) -> bool {
        &&& 0 <= self.project_spec(x, y).0 < self.render_target.width * UNIT
        &&& 0 <= self.project_spec(x, y).1 < self.render_target.height * UNIT
    }

    /// Maps a logical point into the render target.
    pub fn project(&self, x: i64, y: i64) -> (p: (i64, i64))
        requires
            in_world(x as int),
            in_world(y as int),
            in_world(self.target.x as int),
            in_world(self.target.y as int),
        ensures
            p.0 == self.project_spec(x as int, y as int).0,
            p.1 == self.project_spec(x as int, y as int).1,
    {
        (
            x - self.target.x + (self.render_target.width as i64) * HALF_UNIT,
            y - self.target.y + (self.render_target.height as i64) * HALF_UNIT,
        )
    }
}

impl CamScale {
    /// Whether the presenter can size a target: the scale is positive.
    pub open spec fn wf(&self) -> bool {
        self.scale > 0
    }

    /// Whether a logical pass is open: `activate` has run and `render` has not.
    pub open spec fn is_active(&self) -> bool {
        self.render_target.is_some()
    }

    /// A presenter at rest, looking at the origin.
    pub fn new(scale: i64) -> (cam: CamScale)
        requires
            scale > 0,
        ensures
            cam == (CamScale { scale, target: Vec2 { x: 0, y: 0 }, render_target: None }),
            cam.wf(),
            !cam.is_active(),
    {
        CamScale { scale, target: Vec2 { x: 0, y: 0 }, render_target: None }
    }

    /// The size of the render target that a pass on this surface draws into:
    /// the internal screen.
    pub fn internal_size(&self, surface: ImageSize) -> (size: ImageSize)
        requires
            self.wf(),
        ensures
            size == target_size(surface, self.scale),
    {
        ImageSize {
            width: scale_down(surface.width, self.scale),
            height: scale_down(surface.height, self.scale),
        }
    }

    /// Points the camera at the tracked body: at its place rounded to whole
    /// logical pixels, shifted right by `offset`.
    pub fn follow(&mut self, x: i64, y: i64, offset: i64)
        requires
            in_world(x as int),
            in_world(y as int),
            in_world(offset as int),
        ensures
            final(self).target == focus_spec(x, y, offset),
            final(self).target.x == round_spec(x as int) + offset,
            final(self).target.y == round_spec(y as int),
            final(self).scale == old(self).scale,
            final(self).render_target == old(self).render_target,
    {
        self.target = Vec2 { x: round(x) + offset, y: round(y) };
    }

    /// Opens a frame's logical pass on an output surface of the given size. The
    /// caller makes a cleared render target of the camera's size and draws
    /// through the camera.
    pub fn activate(&mut self, surface: ImageSize) -> (camera: Camera2D)
        requires
            old(self).wf(),
        ensures
            camera.render_target == target_size(surface, old(self).scale),
            camera.target == old(self).target,
            final(self).render_target == Some(camera.render_target),
            final(self).scale == old(self).scale,
            final(self).target == old(self).target,
            final(self).is_active(),
    {
        let size = self.internal_size(surface);
        self.render_target = Some(size);
        Camera2D { render_target: size, target: self.target }
    }

    /// Closes the logical pass: the render target is drawn once at `(x, y)` of
    /// the output surface, stretched to fill it, with nearest-neighbour
    /// sampling. Whatever `params` says of a size is overridden.
    pub fn render(&mut self, x: i64, y: i64, params: Option<DrawTextureParams>, surface: ImageSize) -> (blit:
        Blit)
        requires
            old(self).is_active(),
        ensures
            blit.source == old(self).render_target.unwrap(),
            blit.x == x,
            blit.y == y,
            blit.filter == FilterMode::Nearest,
            blit.params == (DrawTextureParams {
                dest_size: Some(surface),
                ..match params {
                    Some(p) => p,
                    None => DrawTextureParams { dest_size: None, rotation: 0, flip_x: false, flip_y: false },
                }
            }),
            !final(self).is_active(),
            final(self).scale == old(self).scale,
            final(self).target == old(self).target,
    {
        let given = match params {
            Some(p) => p,
            None => DrawTextureParams::default(),
        };
        let source = self.render_target.unwrap();
        self.render_target = None;
        Blit {
            source,
            x,
            y,
            params: DrawTextureParams { dest_size: Some(surface), ..given },
            filter: FilterMode::Nearest,
        }
    }
}

/// Following a body that already stands on whole logical pixels puts the
/// camera where following the unrounded body puts it: rounding again changes
/// nothing.
pub proof fn lemma_follow_rounds_once(x: i64, y: i64, offset: i64)
    requires
        in_world(x as int),
        in_world(y as int),
    ensures
        focus_spec(round_spec(x as int) as i64, round_spec(y as int) as i64, offset) == focus_spec(
            x,
            y,
            offset,
        ),
{
    lemma_round_idempotent(x as int);
    lemma_round_idempotent(y as int);
}

/// The camera always looks at whole logical pixels, as long as the offset is
/// whole.
pub proof fn lemma_focus_is_whole(x: i64, y: i64, offset: i64)
    requires
        in_world(x as int),
        in_world(y as int),
        in_world(offset as int),
        is_whole(offset as int),
    ensures
        is_whole(focus_spec(x, y, offset).x as int),
        is_whole(focus_spec(x, y, offset).y as int),
{
}

} // verus!
