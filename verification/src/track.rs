//! The track: a row of equal segments on which the train stands.

use vstd::prelude::*;
use crate::camscale::{Blit, CamScale, Camera2D, target_size};
use crate::physics::Collider;
use crate::engine::SPRITE_SCALE;
use crate::fixed::{UNIT, HALF_UNIT, WORLD_LIMIT, Vec2, in_world};
use crate::texture::{DrawTextureParams, FilterMode, ImageSize};
use crate::traits::Drawable;

verus! {

/// A track of `segments` segments, each as wide as `img`.
#[derive(Clone, Copy, Debug, PartialEq, Eq, Structural)]
pub struct Track {
    pub segments: u32,
    pub img: ImageSize,
}

/// All that painting the track takes: the camera of its logical pass, where
/// each segment's left edge lies, and the draw that ends the pass.
pub struct TrackDrawing {
    pub camera: Camera2D,
    pub segment_xs: Vec<i64>,
    pub blit: Blit,
}

impl Track {
    /// The length of the whole track, in thousandths of a logical pixel.
    pub open spec fn width(&self) -> int {
        self.img.width * self.segments * UNIT
    }

    /// Where the left edge of segment `i` lies.
    pub open spec fn segment_x(&self, i: int) -> int {
        self.img.width * i * UNIT
    }

    /// Whether the whole track lies inside the world.
    pub open spec fn wf(&self) -> bool {
        in_world(self.width())
    }

    /// Tests whether a track of `segments` segments of this image would lie
    /// inside the world.
    pub fn fits(segments: u32, img: ImageSize) -> (ok: bool)
        ensures
            ok == (Track { segments, img }).wf(),
    {
        assert(0 <= img.width * segments <= 0xffff_ffff * 0xffff_ffff) by (nonlinear_arith)
            requires
                0 <= img.width <= 0xffff_ffff,
                0 <= segments <= 0xffff_ffff,
        ;
        (img.width as u64) * (segments as u64) <= (WORLD_LIMIT / UNIT) as u64
    }

    /// A track of `segments` segments.
    pub fn new(segments: u32, img: ImageSize) -> (track: Track)
        requires
            in_world(img.width * segments * UNIT),
        ensures
            track == (Track { segments, img }),
            track.wf(),
    {
        Track { segments, img }
    }

    /// The box that collides for the track: as long as the track and two
    /// hundred pixels thick, its left end at the origin, with friction one half.
    pub fn make_collider(&self) -> (collider: Collider)
        requires
            self.wf(),
        ensures
            collider == (Collider {
                half_width: (self.img.width * self.segments * HALF_UNIT) as i64,
                half_height: 100_000,
                translation: Vec2 { x: (self.img.width * self.segments * HALF_UNIT) as i64, y: 0 },
                friction: 500,
                restitution: 0,
                mass: None,
            }),
    {
        assert(0 <= self.img.width * self.segments <= 0xffff_ffff * 0xffff_ffff) by (nonlinear_arith)
            requires
                0 <= self.img.width <= 0xffff_ffff,
                0 <= self.segments <= 0xffff_ffff,
        ;
        let half: i64 = ((self.img.width as u64) * (self.segments as u64)) as i64 * HALF_UNIT;
        Collider {
            half_width: half,
            half_height: 100_000,
            translation: Vec2 { x: half, y: 0 },
            friction: 500,
            restitution: 0,
            mass: None,
        }
    }

    /// Works out how the track is painted on an output surface: a logical pass
    /// at scale two with the camera at the origin, one segment after the other
    /// from the origin to the right, and the pass shown at the origin.
    pub fn draw(&self, surface: ImageSize) -> (drawing: TrackDrawing)
        requires
            self.wf(),
        ensures
            drawing.camera == (Camera2D {
                render_target: target_size(surface, SPRITE_SCALE),
                target: Vec2 { x: 0, y: 0 },
            }),
            drawing.segment_xs@.len() == self.segments,
            forall|i: int|
                0 <= i < self.segments ==> #[trigger] drawing.segment_xs@[i] == self.segment_x(i),
            drawing.blit == (Blit {
                source: target_size(surface, SPRITE_SCALE),
                x: 0,
                y: 0,
                params: DrawTextureParams {
                    dest_size: Some(surface),
                    rotation: 0,
                    flip_x: false,
                    flip_y: false,
                },
                filter: FilterMode::Nearest,
            }),
    {
        let mut cam_scale = CamScale::new(SPRITE_SCALE);
        let camera = cam_scale.activate(surface);
        let mut segment_xs: Vec<i64> = Vec::new();
        let mut i: u32 = 0;
        while i < self.segments
            invariant
                self.wf(),
                i <= self.segments,
                segment_xs@.len() == i,
                forall|k: int| 0 <= k < i ==> #[trigger] segment_xs@[k] == self.segment_x(k),
            decreases self.segments - i,
        {
            assert(0 <= self.img.width * i <= self.img.width * self.segments) by (nonlinear_arith)
                requires
                    0 <= self.img.width,
                    0 <= i <= self.segments,
            ;
            let x: i64 = ((self.img.width as u64) * (i as u64)) as i64 * UNIT;
            segment_xs.push(x);
            i += 1;
        }
        let blit = cam_scale.render(0, 0, None, surface);
        TrackDrawing { camera, segment_xs, blit }
    }
}

impl Drawable for Track {
    open spec fn position(&self) -> (i64, i64) {
        (0, 0)
    }

    fn get_position(&self) -> (p: (i64, i64)) {
        (0, 0)
    }
}

} // verus!
