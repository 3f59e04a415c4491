//! Sprites that ride on bodies of the solver: the locomotive and its cars as
//! they are painted inside the frame's logical pass.

use vstd::prelude::*;
use crate::fixed::{HALF_UNIT, Vec2, round, round_spec};
use crate::physics::{BodyHandle, BodyKind, Collider, RigidBody, Transform};
use crate::texture::ImageSize;

verus! {

/// A texture bound to a body.
#[derive(Clone, Copy, Debug, PartialEq, Eq, Structural)]
pub struct Sprite {
    pub texture: ImageSize,
    pub handle: BodyHandle,
}

/// Where and how a sprite's texture is drawn.
#[derive(Clone, Copy, Debug, PartialEq, Eq, Structural)]
pub struct SpriteDrawing {
    pub x: i64,
    pub y: i64,
    /// In thousandths of a radian.
    pub rotation: i64,
}

/// All that painting the locomotive inside the frame takes.
#[derive(Clone, Copy, Debug, PartialEq, Eq, Structural)]
pub struct TrainDrawing {
    pub sprite: SpriteDrawing,
    /// Where the smoke rises from.
    pub smoke_at: Vec2,
    /// The angle of the wheel, in thousandths of a radian.
    pub wheel_phase: i64,
    /// The centre about which the connecting rod's near end turns.
    pub rod_centre: Vec2,
    /// How far from that centre the near end is.
    pub rod_radius: i64,
    /// The rod's far end.
    pub rod_end: Vec2,
}

/// A body's place rounded to whole logical pixels, so that the sprite does
/// not shimmer.
pub open spec fn pixel_place(transform: Transform) -> Vec2 {
    Vec2 {
        x: round_spec(transform.position.x as int) as i64,
        y: round_spec(transform.position.y as int) as i64,
    }
}

impl Sprite {
    /// The body that carries a sprite: dynamic, starting at `position`.
    pub fn body(position: Vec2) -> (body: RigidBody)
        ensures
            body == (RigidBody { kind: BodyKind::Dynamic, translation: position }),
    {
        RigidBody { kind: BodyKind::Dynamic, translation: position }
    }

    /// The box that collides for a sprite: as large as its texture, centred on
    /// the body, of mass one hundred, with friction one half and no bounce.
    pub fn collider(texture: ImageSize) -> (collider: Collider)
        ensures
            collider == (Collider {
                half_width: (texture.width * HALF_UNIT) as i64,
                half_height: (texture.height * HALF_UNIT) as i64,
                translation: Vec2 { x: 0, y: 0 },
                friction: 500,
                restitution: 0,
                mass: Some(100_000i64),
            }),
    {
        Collider {
            half_width: (texture.width as i64) * HALF_UNIT,
            half_height: (texture.height as i64) * HALF_UNIT,
            translation: Vec2 { x: 0, y: 0 },
            friction: 500,
            restitution: 0,
            mass: Some(100_000),
        }
    }

    /// Binds a loaded texture to the body that was inserted for it.
    pub fn load(texture: ImageSize, handle: BodyHandle) -> (sprite: Sprite)
        ensures
            sprite == (Sprite { texture, handle }),
    {
        Sprite { texture, handle }
    }
}

/// Works out how a car is painted: at its body's place rounded to whole
/// logical pixels, turned as the body is.
pub fn draw_car(body: &Transform) -> (drawing: SpriteDrawing)
    requires
        body.wf(),
    ensures
        drawing == (SpriteDrawing {
            x: pixel_place(*body).x,
            y: pixel_place(*body).y,
            rotation: body.rotation,
        }),
{
    SpriteDrawing { x: round(body.position.x), y: round(body.position.y), rotation: body.rotation }
}

/// Works out how the locomotive is painted: the sprite as a car is, the smoke
/// forty-five pixels to the right of its corner, and the connecting rod from a
/// point that turns with the wheel to a fixed end, the wheel turned against the
/// distance travelled.
pub fn draw_engine(body: &Transform) -> (drawing: TrainDrawing)
    requires
        body.wf(),
    ensures
        drawing.sprite == (SpriteDrawing {
            x: pixel_place(*body).x,
            y: pixel_place(*body).y,
            rotation: body.rotation,
        }),
        drawing.smoke_at == (Vec2 { x: (pixel_place(*body).x + 45_000) as i64, y: pixel_place(*body).y }),
        drawing.wheel_phase == -(body.position.x as int),
        drawing.rod_centre == (Vec2 {
            x: (pixel_place(*body).x + 20_000) as i64,
            y: (pixel_place(*body).y + 25_000) as i64,
        }),
        drawing.rod_radius == 3_000,
        drawing.rod_end == (Vec2 {
            x: (pixel_place(*body).x + 40_000) as i64,
            y: (pixel_place(*body).y + 25_000) as i64,
        }),
{
    let train_x = round(body.position.x);
    let train_y = round(body.position.y);
    TrainDrawing {
        sprite: SpriteDrawing { x: train_x, y: train_y, rotation: body.rotation },
        smoke_at: Vec2 { x: train_x + 45_000, y: train_y },
        wheel_phase: -body.position.x,
        rod_centre: Vec2 { x: train_x + 20_000, y: train_y + 25_000 },
        rod_radius: 3_000,
        rod_end: Vec2 { x: train_x + 40_000, y: train_y + 25_000 },
    }
}

} // verus!
