use choo_choo::camscale::{CamScale, Camera2D};
use choo_choo::fixed::Vec2;
use choo_choo::texture::{DrawTextureParams, FilterMode, ImageSize};

const SURFACE: ImageSize = ImageSize { width: 640, height: 300 };

#[test]
fn new_presenter_is_at_rest() {
    let cam = CamScale::new(2_000);
    assert_eq!(cam.scale, 2_000);
    assert_eq!(cam.target, Vec2 { x: 0, y: 0 });
    assert_eq!(cam.render_target, None);
}

#[test]
fn activate_sizes_the_target_by_the_scale() {
    let mut cam = CamScale::new(2_000);
    let camera = cam.activate(SURFACE);
    assert_eq!(camera.render_target, ImageSize { width: 320, height: 150 });
    assert_eq!(camera.target, Vec2 { x: 0, y: 0 });
    assert_eq!(cam.render_target, Some(ImageSize { width: 320, height: 150 }));
    assert_eq!(cam.scale, 2_000);
}

#[test]
fn target_size_is_cut_down_to_whole_pixels() {
    let mut cam = CamScale::new(3_000);
    let camera = cam.activate(ImageSize { width: 640, height: 301 });
    assert_eq!(camera.render_target, ImageSize { width: 213, height: 100 });
    let mut fine = CamScale::new(1_500);
    assert_eq!(fine.activate(ImageSize { width: 100, height: 1 }).render_target, ImageSize {
        width: 66,
        height: 0
    });
}

#[test]
fn internal_size_needs_no_open_pass() {
    let cam = CamScale::new(4_000);
    assert_eq!(cam.internal_size(SURFACE), ImageSize { width: 160, height: 75 });
    assert_eq!(cam.render_target, None);
}

#[test]
fn target_side_stops_at_the_largest_side() {
    let cam = CamScale::new(1);
    let size = cam.internal_size(ImageSize { width: u32::MAX, height: 5_000_000 });
    assert_eq!(size, ImageSize { width: u32::MAX, height: u32::MAX });
    let exact = CamScale::new(1).internal_size(ImageSize { width: 4_294_967, height: 0 });
    assert_eq!(exact, ImageSize { width: 4_294_967_000, height: 0 });
}

#[test]
fn camera_looks_at_the_rounded_body() {
    let mut cam = CamScale::new(2_000);
    cam.follow(150_400, 49_500, 0);
    assert_eq!(cam.target, Vec2 { x: 150_000, y: 50_000 });
    cam.follow(-150_600, -49_499, 0);
    assert_eq!(cam.target, Vec2 { x: -151_000, y: -49_000 });
}

#[test]
fn camera_is_shifted_by_the_offset() {
    let mut cam = CamScale::new(2_000);
    cam.follow(150_400, 49_500, 32_000);
    assert_eq!(cam.target, Vec2 { x: 182_000, y: 50_000 });
    cam.follow(150_400, 49_500, -500);
    assert_eq!(cam.target, Vec2 { x: 149_500, y: 50_000 });
}

#[test]
fn following_a_rounded_body_changes_nothing() {
    let mut first = CamScale::new(2_000);
    first.follow(7_777, -3_333, 16_000);
    let mut second = CamScale::new(2_000);
    second.follow(first.target.x - 16_000, first.target.y, 16_000);
    assert_eq!(first.target, second.target);
}

#[test]
fn activate_installs_the_focal_point() {
    let mut cam = CamScale::new(2_000);
    cam.follow(10_200, 20_700, 0);
    let camera = cam.activate(SURFACE);
    assert_eq!(camera, Camera2D {
        render_target: ImageSize { width: 320, height: 150 },
        target: Vec2 { x: 10_000, y: 21_000 }
    });
}

#[test]
fn render_stretches_the_target_over_the_surface() {
    let mut cam = CamScale::new(2_000);
    cam.activate(SURFACE);
    let blit = cam.render(0, 0, None, SURFACE);
    assert_eq!(blit.source, ImageSize { width: 320, height: 150 });
    assert_eq!((blit.x, blit.y), (0, 0));
    assert_eq!(blit.filter, FilterMode::Nearest);
    assert_eq!(blit.params, DrawTextureParams {
        dest_size: Some(SURFACE),
        rotation: 0,
        flip_x: false,
        flip_y: false
    });
}

#[test]
fn render_keeps_the_given_parameters_but_the_size() {
    let mut cam = CamScale::new(2_000);
    cam.activate(SURFACE);
    let given = DrawTextureParams {
        dest_size: Some(ImageSize { width: 1, height: 1 }),
        rotation: 1_571,
        flip_x: true,
        flip_y: false,
    };
    let blit = cam.render(12_000, -7_000, Some(given), SURFACE);
    assert_eq!((blit.x, blit.y), (12_000, -7_000));
    assert_eq!(blit.params, DrawTextureParams {
        dest_size: Some(SURFACE),
        rotation: 1_571,
        flip_x: true,
        flip_y: false
    });
}

#[test]
fn render_closes_the_pass() {
    let mut cam = CamScale::new(2_000);
    cam.activate(SURFACE);
    assert!(cam.render_target.is_some());
    cam.render(0, 0, None, SURFACE);
    assert_eq!(cam.render_target, None);
    assert_eq!(cam.scale, 2_000);
    cam.activate(ImageSize { width: 320, height: 150 });
    assert_eq!(cam.render_target, Some(ImageSize { width: 160, height: 75 }));
}

#[test]
fn projection_centres_the_focal_point() {
    let camera = Camera2D {
        render_target: ImageSize { width: 160, height: 75 },
        target: Vec2 { x: 1_000_000, y: 40_000 },
    };
    assert_eq!(camera.project(1_000_000, 40_000), (80_000, 37_500));
    assert_eq!(camera.project(920_000, 2_500), (0, 0));
    assert_eq!(camera.project(1_079_999, 77_499), (159_999, 74_999));
    assert_eq!(camera.project(900_000, 100_000), (-20_000, 97_500));
}

#[test]
fn default_parameters_change_nothing() {
    assert_eq!(DrawTextureParams::default(), DrawTextureParams {
        dest_size: None,
        rotation: 0,
        flip_x: false,
        flip_y: false
    });
}
