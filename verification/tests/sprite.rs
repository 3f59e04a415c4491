use choo_choo::fixed::{Vec2, WORLD_LIMIT};
use choo_choo::physics::{BodyHandle, BodyKind, Collider, RigidBody, Transform};
use choo_choo::sprite::{draw_car, draw_engine, Sprite, SpriteDrawing};
use choo_choo::texture::ImageSize;

fn reading(x: i64, y: i64, rotation: i64) -> Transform {
    Transform::new(Vec2 { x, y }, rotation, Vec2 { x: 0, y: 0 }).unwrap()
}

#[test]
fn sprite_body_is_dynamic_at_its_start() {
    assert_eq!(Sprite::body(Vec2 { x: 150_000, y: 50_000 }), RigidBody {
        kind: BodyKind::Dynamic,
        translation: Vec2 { x: 150_000, y: 50_000 }
    });
}

#[test]
fn sprite_collider_is_as_large_as_the_texture() {
    assert_eq!(Sprite::collider(ImageSize { width: 48, height: 21 }), Collider {
        half_width: 24_000,
        half_height: 10_500,
        translation: Vec2 { x: 0, y: 0 },
        friction: 500,
        restitution: 0,
        mass: Some(100_000),
    });
}

#[test]
fn sprite_binds_texture_and_handle() {
    let texture = ImageSize { width: 48, height: 21 };
    let handle = BodyHandle { index: 3, generation: 1 };
    assert_eq!(Sprite::load(texture, handle), Sprite { texture, handle });
}

#[test]
fn car_is_drawn_on_whole_pixels() {
    assert_eq!(draw_car(&reading(90_499, 30_500, 17)), SpriteDrawing {
        x: 90_000,
        y: 31_000,
        rotation: 17
    });
    assert_eq!(draw_car(&reading(-90_500, -30_499, -17)), SpriteDrawing {
        x: -91_000,
        y: -30_000,
        rotation: -17
    });
}

#[test]
fn engine_parts_hang_on_the_rounded_place() {
    let drawing = draw_engine(&reading(150_400, 49_600, 250));
    assert_eq!(drawing.sprite, SpriteDrawing { x: 150_000, y: 50_000, rotation: 250 });
    assert_eq!(drawing.smoke_at, Vec2 { x: 195_000, y: 50_000 });
    assert_eq!(drawing.wheel_phase, -150_400);
    assert_eq!(drawing.rod_centre, Vec2 { x: 170_000, y: 75_000 });
    assert_eq!(drawing.rod_radius, 3_000);
    assert_eq!(drawing.rod_end, Vec2 { x: 190_000, y: 75_000 });
}

#[test]
fn reading_outside_the_world_is_refused() {
    let still = Vec2 { x: 0, y: 0 };
    assert!(Transform::new(Vec2 { x: WORLD_LIMIT + 1, y: 0 }, 0, still).is_none());
    assert!(Transform::new(Vec2 { x: 0, y: -WORLD_LIMIT - 1 }, 0, still).is_none());
    assert!(Transform::new(Vec2 { x: i64::MIN, y: i64::MAX }, 0, still).is_none());
}

#[test]
fn reading_inside_the_world_is_kept() {
    let fast = Vec2 { x: i64::MAX, y: i64::MIN };
    let reading = Transform::new(Vec2 { x: WORLD_LIMIT, y: -WORLD_LIMIT }, i64::MAX, fast);
    assert_eq!(reading, Some(Transform {
        position: Vec2 { x: WORLD_LIMIT, y: -WORLD_LIMIT },
        rotation: i64::MAX,
        velocity: fast
    }));
}
