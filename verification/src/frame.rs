//! One tick of the frame loop.
//!
//! The caller steps the solver, reads the tracked body and the held
//! directions, and hands them to [`Frame::tick`]. What comes back is the rest
//! of the frame in the order in which it is carried out: the impulse for the
//! tracked body, the amount of smoke, the camera of the logical pass, the
//! entities in painting order, the draw that shows the pass on the output
//! surface, and how much the title wobbles on top of it.

use vstd::prelude::*;
use crate::camscale::{Blit, CamScale, Camera2D, focus_spec, target_size};
use crate::compositor::{is_draw_order, stable_order};
use crate::config::IMPULSE;
use crate::engine::{Engine, smoke_amount, smoke_amount_spec};
use crate::fixed::{UNIT, HALF_UNIT, Vec2, magnitude};
use crate::grass::GrassBlade;
use crate::input::{Input, impulse_spec};
use crate::physics::Transform;
use crate::recycler::{recycle_all, recycle_spec};
use crate::texture::{DrawTextureParams, FilterMode, ImageSize};

verus! {

/// One entity of the sorted set.
#[derive(Clone, Copy, Debug, PartialEq, Eq, Structural)]
pub enum DrawItem {
    /// The blade at this place of the decoration.
    Blade(usize),
    /// The locomotive.
    Engine,
    /// The car at this place of the train.
    Car(usize),
}

/// What the frame loop owns besides the solver: the presenter, the decoration
/// and the locomotive.
pub struct Frame {
    pub cam: CamScale,
    pub grass: Vec<GrassBlade>,
    pub engine: Engine,
}

/// The rest of a frame, in the order in which it is carried out.
pub struct FramePlan {
    /// Applied to the tracked body.
    pub impulse: Vec2,
    /// Handed to the smoke emitter.
    pub smoke: u32,
    /// Installed for the logical pass, after the decoration was recycled.
    pub camera: Camera2D,
    /// Painted in this order, after the background.
    pub order: Vec<DrawItem>,
    /// Shows the logical pass on the output surface.
    pub blit: Blit,
    /// How far the title's scale swings about one, in thousandths.
    pub title_wobble: i64,
}

/// The anchors of the sorted set: the blades in their order, then the
/// locomotive, then the cars in theirs.
pub open spec fn frame_anchors(grass: Seq<GrassBlade>, engine_y: i64, cars: Seq<Transform>) -> Seq<i64> {
    Seq::new(
        grass.len() + 1 + cars.len(),
        |i: int|
            if i < grass.len() {
                grass[i].y
            } else if i == grass.len() {
                engine_y
            } else {
                cars[i - grass.len() - 1].position.y
            },
    )
}

/// The place of an entity in [`frame_anchors`], for `blades` blades.
pub open spec fn item_index(item: DrawItem, blades: nat) -> int {
    match item {
        DrawItem::Blade(i) => i as int,
        DrawItem::Engine => blades as int,
        DrawItem::Car(j) => blades + 1 + j,
    }
}

/// The places of a list of entities.
pub open spec fn item_indices(order: Seq<DrawItem>, blades: nat) -> Seq<usize> {
    Seq::new(order.len(), |k: int| item_index(order[k], blades) as usize)
}

/// Whether an entity exists among `blades` blades and `cars` cars.
pub open spec fn item_exists(item: DrawItem, blades: nat, cars: nat) -> bool {
    match item {
        DrawItem::Blade(i) => i < blades,
        DrawItem::Engine => true,
        DrawItem::Car(j) => j < cars,
    }
}

/// How far the title's scale swings for a horizontal speed: a thousandth of
/// the speed's magnitude.
pub open spec fn title_wobble_spec(vx: int) -> int {
    magnitude(vx) / (UNIT as int)
}

/// Derives the swing of the title's scale from the tracked body's horizontal
/// speed.
pub fn title_wobble(vx: i64) -> (w: i64)
    ensures
        w == title_wobble_spec(vx as int),
{
    if vx >= 0 {
        vx / UNIT
    } else if vx == i64::MIN {
        i64::MAX / UNIT
    } else {
        (-vx) / UNIT
    }
}

fn item_at(index: usize, blades: usize) -> (item: DrawItem)
    ensures
        item_index(item, blades as nat) == index,
        forall|cars: nat| index < blades + 1 + cars ==> item_exists(item, blades as nat, cars),
{
    if index < blades {
        DrawItem::Blade(index)
    } else if index == blades {
        DrawItem::Engine
    } else {
        DrawItem::Car(index - blades - 1)
    }
}

impl Frame {
    /// Whether the frame can run: its presenter can size a target.
    pub open spec fn wf(&self) -> bool {
        self.cam.wf()
    }

    /// A frame at rest.
    pub fn new(cam: CamScale, grass: Vec<GrassBlade>, engine: Engine) -> (frame: Frame)
        requires
            cam.wf(),
        ensures
            frame.cam == cam,
            frame.grass == grass,
            frame.engine == engine,
            frame.wf(),
    {
        Frame { cam, grass, engine }
    }

    /// Runs one tick, after the solver has stepped. `tracked` is the reading of
    /// the locomotive's body and `cars` the readings of the cars' bodies, all
    /// as of that step; `surface` is the size of the output surface now.
    pub fn tick(&mut self, body: &Transform, cars: &Vec<Transform>, input: &Input, surface: ImageSize) -> (plan:
        FramePlan)
        requires
            old(self).wf(),
            body.wf(),
            old(self).grass@.len() + 1 + cars@.len() <= usize::MAX,
        ensures
            final(self).wf(),
            final(self).cam.scale == old(self).cam.scale,
            !final(self).cam.is_active(),
            // the impulse is the sum of what the held directions add
            plan.impulse == impulse_spec(*input, IMPULSE),
            // the smoke follows the horizontal speed
            plan.smoke == smoke_amount_spec(body.velocity.x as int),
            // the locomotive is where its body is
            final(self).engine == (Engine {
                x: body.position.x,
                y: body.position.y,
                rotation: body.rotation,
                smoke: plan.smoke,
                img: old(self).engine.img,
            }),
            // every blade has been recycled about the tracked body, by the
            // width of the internal screen
            final(self).grass@.len() == old(self).grass@.len(),
            forall|i: int|
                0 <= i < old(self).grass@.len() ==> #[trigger] final(self).grass@[i] == old(
                    self,
                ).grass@[i].at_x(
                    recycle_spec(
                        old(self).grass@[i].x as int,
                        body.position.x as int,
                        target_size(surface, old(self).cam.scale).width,
                    ) as i64,
                ),
            // the camera looks at the tracked body, half the locomotive's
            // width to its right
            final(self).cam.target == focus_spec(
                body.position.x,
                body.position.y,
                (old(self).engine.img.width * HALF_UNIT) as i64,
            ),
            plan.camera == (Camera2D {
                render_target: target_size(surface, old(self).cam.scale),
                target: final(self).cam.target,
            }),
            // everything is painted once, in the compositor's order
            plan.order@.len() == old(self).grass@.len() + 1 + cars@.len(),
            forall|k: int|
                0 <= k < plan.order@.len() ==> item_exists(
                    #[trigger] plan.order@[k],
                    old(self).grass@.len(),
                    cars@.len(),
                ),
            is_draw_order(
                frame_anchors(final(self).grass@, body.position.y, cars@),
                item_indices(plan.order@, old(self).grass@.len()),
            ),
            // the logical pass fills the output surface
            plan.blit == (Blit {
                source: target_size(surface, old(self).cam.scale),
                x: 0,
                y: 0,
                params: DrawTextureParams {
                    dest_size: Some(surface),
                    rotation: 0,
                    flip_x: false,
                    flip_y: false,
                },
                filter: FilterMode::Nearest,
            }),
            plan.title_wobble == title_wobble_spec(body.velocity.x as int),
    {
        let impulse = input.impulse(IMPULSE);
        let smoke = smoke_amount(body.velocity.x);
        self.engine.x = body.position.x;
        self.engine.y = body.position.y;
        self.engine.rotation = body.rotation;
        self.engine.smoke = smoke;

        let internal = self.cam.internal_size(surface);
        recycle_all(&mut self.grass, body.position.x, internal.width);

        let offset: i64 = (self.engine.img.width as i64) * HALF_UNIT;
        self.cam.follow(body.position.x, body.position.y, offset);
        let camera = self.cam.activate(surface);

        let blades = self.grass.len();
        let mut anchors: Vec<i64> = Vec::new();
        let mut i: usize = 0;
        while i < blades
            invariant
                blades == self.grass@.len(),
                i <= blades,
                anchors@.len() == i,
                forall|k: int| 0 <= k < i ==> #[trigger] anchors@[k] == self.grass@[k].y,
            decreases blades - i,
        {
            anchors.push(self.grass[i].y);
            i += 1;
        }
        anchors.push(body.position.y);
        let mut j: usize = 0;
        while j < cars.len()
            invariant
                blades == self.grass@.len(),
                blades + 1 + cars@.len() <= usize::MAX,
                j <= cars@.len(),
                anchors@.len() == blades + 1 + j,
                forall|k: int| 0 <= k < blades ==> #[trigger] anchors@[k] == self.grass@[k].y,
                anchors@[blades as int] == body.position.y,
                forall|k: int| 0 <= k < j ==> #[trigger] anchors@[blades + 1 + k] == cars@[k].position.y,
            decreases cars@.len() - j,
        {
            anchors.push(cars[j].position.y);
            j += 1;
        }
        assert(anchors@ =~= frame_anchors(self.grass@, body.position.y, cars@)) by {
            assert forall|m: int| blades < m < anchors@.len() implies anchors@[m] == cars@[m - blades
                - 1].position.y by {
                assert(anchors@[blades + 1 + (m - blades - 1)] == cars@[m - blades - 1].position.y);
            }
        }

        let indices = stable_order(&anchors);
        let mut order: Vec<DrawItem> = Vec::new();
        let mut k: usize = 0;
        while k < indices.len()
            invariant
                blades == self.grass@.len(),
                indices@.len() == blades + 1 + cars@.len(),
                forall|m: int| 0 <= m < indices@.len() ==> (#[trigger] indices@[m]) < indices@.len(),
                k <= indices@.len(),
                order@.len() == k,
                forall|m: int|
                    0 <= m < k ==> item_index(#[trigger] order@[m], blades as nat) == indices@[m],
                forall|m: int|
                    0 <= m < k ==> item_exists(#[trigger] order@[m], blades as nat, cars@.len()),
            decreases indices@.len() - k,
        {
            let item = item_at(indices[k], blades);
            order.push(item);
            k += 1;
        }
        assert(item_indices(order@, blades as nat) =~= indices@);

        let blit = self.cam.render(0, 0, None, surface);
        FramePlan {
            impulse,
            smoke,
            camera,
            order,
            blit,
            title_wobble: title_wobble(body.velocity.x),
        }
    }
}

} // verus!
