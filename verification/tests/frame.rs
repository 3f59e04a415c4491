use choo_choo::camscale::{CamScale, Camera2D};
use choo_choo::engine::Engine;
use choo_choo::fixed::Vec2;
use choo_choo::frame::{title_wobble, DrawItem, Frame};
use choo_choo::grass::GrassBlade;
use choo_choo::input::Input;
use choo_choo::physics::Transform;
use choo_choo::texture::{DrawTextureParams, FilterMode, ImageSize};

const SURFACE: ImageSize = ImageSize { width: 320, height: 150 };

fn blade_at(x: i64, y: i64) -> GrassBlade {
    let mut blade = GrassBlade::default();
    blade.x = x;
    blade.y = y;
    blade
}

fn reading(x: i64, y: i64, vx: i64) -> Transform {
    Transform::new(Vec2 { x, y }, 125, Vec2 { x: vx, y: 0 }).unwrap()
}

fn frame_with(grass: Vec<GrassBlade>) -> Frame {
    Frame::new(CamScale::new(2_000), grass, Engine::new(ImageSize { width: 64, height: 32 }))
}

#[test]
fn tick_without_input_gives_no_impulse() {
    let mut frame = frame_with(Vec::new());
    let plan = frame.tick(&reading(0, 0, 0), &Vec::new(), &Input::none(), SURFACE);
    assert_eq!(plan.impulse, Vec2 { x: 0, y: 0 });
    assert_eq!(plan.smoke, 0);
    assert_eq!(plan.title_wobble, 0);
}

#[test]
fn tick_maps_input_to_the_impulse() {
    let mut frame = frame_with(Vec::new());
    let right = Input { right: true, ..Input::none() };
    let plan = frame.tick(&reading(0, 0, 0), &Vec::new(), &right, SURFACE);
    assert_eq!(plan.impulse, Vec2 { x: 100_000, y: 0 });
    let left = Input { left: true, ..Input::none() };
    let plan = frame.tick(&reading(0, 0, 0), &Vec::new(), &left, SURFACE);
    assert_eq!(plan.impulse, Vec2 { x: -100_000, y: 0 });
}

#[test]
fn tick_derives_smoke_and_wobble_from_the_speed() {
    let mut frame = frame_with(Vec::new());
    let plan = frame.tick(&reading(0, 0, -25_000), &Vec::new(), &Input::none(), SURFACE);
    assert_eq!(plan.smoke, 5);
    assert_eq!(frame.engine.smoke, 5);
    assert_eq!(plan.title_wobble, 25);
}

#[test]
fn tick_puts_the_engine_where_its_body_is() {
    let mut frame = frame_with(Vec::new());
    frame.tick(&reading(150_400, 49_600, 0), &Vec::new(), &Input::none(), SURFACE);
    assert_eq!((frame.engine.x, frame.engine.y, frame.engine.rotation), (150_400, 49_600, 125));
    assert_eq!(frame.engine.img, ImageSize { width: 64, height: 32 });
}

#[test]
fn tick_recycles_by_the_internal_width() {
    // surface 320 wide at scale two: an internal screen 160 wide
    let mut frame = frame_with(vec![blade_at(200_000, 1_000), blade_at(-81_000, 2_000), blade_at(5_000, 3_000)]);
    frame.tick(&reading(0, 0, 0), &Vec::new(), &Input::none(), SURFACE);
    assert_eq!(frame.grass[0].x, 40_000);
    assert_eq!(frame.grass[1].x, 79_000);
    assert_eq!(frame.grass[2].x, 5_000);
    assert_eq!((frame.grass[0].y, frame.grass[1].y, frame.grass[2].y), (1_000, 2_000, 3_000));
}

#[test]
fn tick_points_the_camera_at_the_rounded_body() {
    let mut frame = frame_with(Vec::new());
    let plan = frame.tick(&reading(150_400, 49_600, 0), &Vec::new(), &Input::none(), SURFACE);
    // half of the engine's 64 pixels to the right of the rounded place
    assert_eq!(plan.camera, Camera2D {
        render_target: ImageSize { width: 160, height: 75 },
        target: Vec2 { x: 182_000, y: 50_000 }
    });
    assert_eq!(frame.cam.target, Vec2 { x: 182_000, y: 50_000 });
}

#[test]
fn tick_paints_in_depth_order() {
    let grass = vec![blade_at(0, 90_000), blade_at(0, 10_000), blade_at(0, 50_000)];
    let mut frame = frame_with(grass);
    let cars = vec![reading(90_000, 50_000, 0), reading(30_000, 20_000, 0)];
    let plan = frame.tick(&reading(150_000, 50_000, 0), &cars, &Input::none(), SURFACE);
    // anchors: blades 90, 10, 50; engine 50; cars 50, 20
    assert_eq!(plan.order, vec![
        DrawItem::Blade(1),
        DrawItem::Car(1),
        DrawItem::Blade(2),
        DrawItem::Engine,
        DrawItem::Car(0),
        DrawItem::Blade(0),
    ]);
}

#[test]
fn tick_with_nothing_but_the_engine_paints_the_engine() {
    let mut frame = frame_with(Vec::new());
    let plan = frame.tick(&reading(0, 0, 0), &Vec::new(), &Input::none(), SURFACE);
    assert_eq!(plan.order, vec![DrawItem::Engine]);
}

#[test]
fn tick_ends_with_the_pass_closed_and_shown() {
    let mut frame = frame_with(Vec::new());
    let plan = frame.tick(&reading(0, 0, 0), &Vec::new(), &Input::none(), SURFACE);
    assert_eq!(frame.cam.render_target, None);
    assert_eq!(frame.cam.scale, 2_000);
    assert_eq!(plan.blit.source, ImageSize { width: 160, height: 75 });
    assert_eq!((plan.blit.x, plan.blit.y), (0, 0));
    assert_eq!(plan.blit.filter, FilterMode::Nearest);
    assert_eq!(plan.blit.params, DrawTextureParams {
        dest_size: Some(SURFACE),
        rotation: 0,
        flip_x: false,
        flip_y: false
    });
}

#[test]
fn decoration_stays_around_a_moving_body() {
    let grass: Vec<GrassBlade> = (0..32).map(|i| blade_at(i * 5_000 - 80_000, 60_000)).collect();
    let mut frame = frame_with(grass);
    let mut x: i64 = 0;
    for step in 0..300 {
        x += if step < 200 { 3_700 } else { -9_100 };
        frame.tick(&reading(x, 50_000, 3_700), &Vec::new(), &Input::none(), SURFACE);
        for blade in &frame.grass {
            assert!((blade.x - x).abs() <= 80_000);
        }
    }
}

#[test]
fn same_readings_give_the_same_frame() {
    let grass = vec![blade_at(200_000, 9_000), blade_at(-3_000, 4_000)];
    let mut one = frame_with(grass.clone());
    let mut other = frame_with(grass);
    let input = Input { right: true, up: true, ..Input::none() };
    let cars = vec![reading(1_000, 6_000, 0)];
    let a = one.tick(&reading(10_700, 5_200, 12_000), &cars, &input, SURFACE);
    let b = other.tick(&reading(10_700, 5_200, 12_000), &cars, &input, SURFACE);
    assert_eq!(a.impulse, b.impulse);
    assert_eq!(a.smoke, b.smoke);
    assert_eq!(a.camera, b.camera);
    assert_eq!(a.order, b.order);
    assert_eq!(a.blit, b.blit);
    assert_eq!(one.grass, other.grass);
}

#[test]
fn wobble_is_a_thousandth_of_the_speed() {
    assert_eq!(title_wobble(0), 0);
    assert_eq!(title_wobble(999), 0);
    assert_eq!(title_wobble(-999), 0);
    assert_eq!(title_wobble(25_000), 25);
    assert_eq!(title_wobble(-25_999), 25);
    assert_eq!(title_wobble(i64::MAX), 9_223_372_036_854_775);
    assert_eq!(title_wobble(i64::MIN), 9_223_372_036_854_775);
}
