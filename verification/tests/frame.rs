//! Tests for the animated frame construction and the top-level entry.

use raytracer::fixed::Fx;
use raytracer::setup::generate_image;
use raytracer::setup::render_scene;

fn fx(v: i64) -> Fx {
    Fx { v }
}

#[test]
fn render_scene_builds_the_expected_aggregate() {
    let (scene, camera) = render_scene(
        fx(0),
        fx(0),
        fx(0),
        fx(0),
        fx(0),
        fx(0),
        fx(1_000_000),
        100,
        100,
        fx(0),
    );
    assert_eq!(scene.lights.len(), 1);
    assert_eq!(scene.spheres.len(), 4);
    assert_eq!(scene.boards.len(), 2);
    let big = &scene.spheres[0];
    assert_eq!(big.center.z, fx(5_000_000));
    assert_eq!(big.radius, fx(1_000_000));
    let orbiter = &scene.spheres[1];
    assert_eq!(orbiter.radius, fx(300_000));
    assert_eq!(orbiter.center.z, fx(4_100_000));
    assert_eq!(orbiter.options.reflective_part, fx(400_000));
    assert_eq!(scene.boards[0].grid_size, fx(250_000));
    assert_eq!(scene.boards[1].pos.z, fx(0));
    // no view offset: the camera sits at the fixed vantage
    assert_eq!(camera.origin.x, fx(0));
    assert_eq!(camera.origin.y, fx(2_500_000));
    assert_eq!(camera.origin.z, fx(3_000_000));
}

#[test]
fn render_scene_applies_camera_offsets() {
    let (_, camera) = render_scene(
        fx(1_000_000),
        fx(-2_000_000),
        fx(500_000),
        fx(0),
        fx(0),
        fx(0),
        fx(1_000_000),
        100,
        100,
        fx(0),
    );
    assert_eq!(camera.origin.x, fx(1_000_000));
    assert_eq!(camera.origin.y, fx(500_000));
    assert_eq!(camera.origin.z, fx(3_500_000));
}

#[test]
fn generate_image_fills_the_rectangle_deterministically() {
    let mut first = vec![0u8; 4 * 4 * 4];
    generate_image(
        4,
        4,
        0,
        4,
        0,
        4,
        fx(0),
        fx(0),
        fx(0),
        fx(0),
        fx(0),
        fx(0),
        fx(1_000_000),
        true,
        fx(0),
        &mut first,
    );
    let mut second = vec![9u8; 4 * 4 * 4];
    generate_image(
        4,
        4,
        0,
        4,
        0,
        4,
        fx(0),
        fx(0),
        fx(0),
        fx(0),
        fx(0),
        fx(0),
        fx(1_000_000),
        true,
        fx(0),
        &mut second,
    );
    assert_eq!(first, second);
    for p in 0..16 {
        assert_eq!(first[p * 4 + 3], 255);
    }
}
