//! Tests for primitives, scene shading, shadows, reflection and the
//! render loop.

use raytracer::camera::Camera;
use raytracer::color::Color;
use raytracer::fixed::Fx;
use raytracer::primitives::Axis;
use raytracer::primitives::Checkerboard;
use raytracer::primitives::Primitive;
use raytracer::primitives::ShadingOptions;
use raytracer::primitives::Sphere;
use raytracer::render::render_pixel;
use raytracer::render::render_rect;
use raytracer::scene::LightSource;
use raytracer::scene::Scene;
use raytracer::structs::Ray;
use raytracer::structs::Vec3;

fn fx(v: i64) -> Fx {
    Fx { v }
}

fn v3(x: i64, y: i64, z: i64) -> Vec3 {
    Vec3 { x: fx(x), y: fx(y), z: fx(z) }
}

fn matte(base: Color, ambiant: i64, diffuse: i64) -> ShadingOptions {
    ShadingOptions {
        base_color: base,
        ambiant_part: fx(ambiant),
        diffuse_part: fx(diffuse),
        specular_part: fx(0),
        specular_coefficient: fx(4_000_000),
        reflective_part: fx(0),
        refraction_index: fx(0),
    }
}

#[test]
fn sphere_head_on_intersection() {
    let sphere = Sphere {
        center: v3(0, 0, 5_000_000),
        radius: fx(1_000_000),
        options: matte(Color::white(), 100_000, 500_000),
    };
    let ray = Ray { origin: v3(0, 0, 0), direction: v3(0, 0, 1_000_000) };
    let (t, point, normal, _) = sphere.intersect(&ray).expect("must hit");
    assert_eq!(t, fx(4_000_000));
    assert_eq!(point, v3(0, 0, 4_000_000));
    assert_eq!(normal, v3(0, 0, -1_000_000));
}

#[test]
fn sphere_missed_sideways() {
    let sphere = Sphere {
        center: v3(0, 0, 5_000_000),
        radius: fx(1_000_000),
        options: matte(Color::white(), 100_000, 500_000),
    };
    let ray = Ray { origin: v3(0, 0, 0), direction: v3(0, 1_000_000, 0) };
    assert!(sphere.intersect(&ray).is_none());
}

#[test]
fn ray_aimed_away_yields_no_scene_intersection() {
    let sphere = Sphere {
        center: v3(0, 0, 5_000_000),
        radius: fx(1_000_000),
        options: matte(Color::white(), 100_000, 500_000),
    };
    let scene = Scene { lights: vec![], spheres: vec![sphere], boards: vec![] };
    let away = Ray { origin: v3(0, 0, 0), direction: v3(0, 0, -1_000_000) };
    assert!(scene.intersect(&away).is_none());
    let toward = Ray { origin: v3(0, 0, 0), direction: v3(0, 0, 1_000_000) };
    assert!(scene.intersect(&toward).is_some());
}

#[test]
fn checkerboard_even_cell_is_black() {
    let board = Checkerboard {
        axis: Axis::ZAxis,
        pos: v3(0, 0, 0),
        radius: fx(5_000_000),
        grid_size: fx(1_000_000),
        options: matte(Color::white(), 400_000, 300_000),
    };
    let ray = Ray { origin: v3(300_000, 400_000, -3_000_000), direction: v3(0, 0, 1_000_000) };
    let (t, point, normal, opts) = board.intersect(&ray).expect("must hit");
    assert_eq!(t, fx(3_000_000));
    assert_eq!(point, v3(300_000, 400_000, 0));
    assert_eq!(normal, v3(0, 0, -1_000_000));
    // cell (0, 0): index sum 0 is even, so the color is forced black
    assert_eq!(opts.base_color, Color::black());
}

#[test]
fn checkerboard_odd_cell_keeps_base_color() {
    let board = Checkerboard {
        axis: Axis::ZAxis,
        pos: v3(0, 0, 0),
        radius: fx(5_000_000),
        grid_size: fx(1_000_000),
        options: matte(Color::white(), 400_000, 300_000),
    };
    // x = -0.3 falls in cell -1: the index sum is odd
    let ray = Ray { origin: v3(-300_000, 400_000, -3_000_000), direction: v3(0, 0, 1_000_000) };
    let (_, _, _, opts) = board.intersect(&ray).expect("must hit");
    assert_eq!(opts.base_color, Color::white());
}

#[test]
fn checkerboard_rejects_outside_disc_and_receding_rays() {
    let board = Checkerboard {
        axis: Axis::ZAxis,
        pos: v3(0, 0, 0),
        radius: fx(1_000_000),
        grid_size: fx(1_000_000),
        options: matte(Color::white(), 400_000, 300_000),
    };
    let outside = Ray { origin: v3(2_000_000, 0, -3_000_000), direction: v3(0, 0, 1_000_000) };
    assert!(board.intersect(&outside).is_none());
    let receding = Ray { origin: v3(0, 0, -3_000_000), direction: v3(0, 0, -1_000_000) };
    assert!(board.intersect(&receding).is_none());
}

fn shadow_scene(occluder_z: i64) -> Scene {
    let big = Sphere {
        center: v3(0, 0, 5_000_000),
        radius: fx(1_000_000),
        options: matte(Color::white(), 100_000, 500_000),
    };
    let occluder = Sphere {
        center: v3(0, 0, occluder_z),
        radius: fx(500_000),
        options: matte(Color::white(), 100_000, 500_000),
    };
    let light = LightSource { pos: v3(0, 0, 8_000_000), color: Color::white() };
    Scene { lights: vec![light], spheres: vec![big, occluder], boards: vec![] }
}

#[test]
fn shadow_bias_boundary_is_not_shadowed() {
    // the primary ray hits the big sphere at (0, 0, 6); the light sits
    // 2.0 away; the occluder's near surface is met at exactly
    // t = 1.999990, so t + bias equals the light distance: lit
    let ray = Ray { origin: v3(0, 0, 8_000_000), direction: v3(0, 0, -1_000_000) };
    let boundary = shadow_scene(8_499_990).shade(&ray, 1);
    let unshadowed = {
        let big = Sphere {
            center: v3(0, 0, 5_000_000),
            radius: fx(1_000_000),
            options: matte(Color::white(), 100_000, 500_000),
        };
        let light = LightSource { pos: v3(0, 0, 8_000_000), color: Color::white() };
        Scene { lights: vec![light], spheres: vec![big], boards: vec![] }.shade(&ray, 1)
    };
    assert_eq!(boundary, unshadowed);
    assert_eq!(boundary.r, fx(600_000));
    assert_eq!(boundary.g, fx(600_000));
    assert_eq!(boundary.b, fx(600_000));
}

#[test]
fn shadow_hit_inside_bias_is_shadowed() {
    // ten millionths closer and t + bias falls short of the light
    // distance: the light is skipped and only the ambient term remains
    let ray = Ray { origin: v3(0, 0, 8_000_000), direction: v3(0, 0, -1_000_000) };
    let shadowed = shadow_scene(8_499_980).shade(&ray, 1);
    assert_eq!(shadowed.r, fx(100_000));
    assert_eq!(shadowed.g, fx(100_000));
    assert_eq!(shadowed.b, fx(100_000));
}

fn mirror_scene() -> Scene {
    let mirror = Sphere {
        center: v3(0, 0, 5_000_000),
        radius: fx(1_000_000),
        options: ShadingOptions {
            base_color: Color::red(),
            ambiant_part: fx(0),
            diffuse_part: fx(0),
            specular_part: fx(0),
            specular_coefficient: fx(4_000_000),
            reflective_part: fx(1_000_000),
            refraction_index: fx(0),
        },
    };
    let matte_green = Sphere {
        center: v3(0, 0, -3_000_000),
        radius: fx(1_000_000),
        options: matte(Color::green(), 1_000_000, 0),
    };
    Scene { lights: vec![], spheres: vec![mirror, matte_green], boards: vec![] }
}

#[test]
fn reflection_budget_zero_gives_no_contribution() {
    let ray = Ray { origin: v3(0, 0, 0), direction: v3(0, 0, 1_000_000) };
    let c = mirror_scene().shade(&ray, 0);
    assert_eq!(c, Color::zero());
}

#[test]
fn reflection_budget_one_shows_reflected_sphere() {
    // the fully reflective sphere bounces the ray straight back into
    // the ambient-lit green sphere behind the camera
    let ray = Ray { origin: v3(0, 0, 0), direction: v3(0, 0, 1_000_000) };
    let c = mirror_scene().shade(&ray, 1);
    assert_eq!(c.r, fx(0));
    assert_eq!(c.g, fx(1_000_000));
    assert_eq!(c.b, fx(0));
    assert_eq!(c.a, fx(1_000_000));
}

fn flat_camera() -> Camera {
    Camera::create(
        v3(0, 0, 0),
        v3(1_000_000, 0, 0),
        v3(0, 1_000_000, 0),
        fx(1_000_000),
        10,
        10,
    )
}

#[test]
fn supersampling_equals_single_sample_on_flat_region() {
    // a giant ambient-only sphere: every sample of the pixel sees the
    // same color, so the five-sample average must equal one sample
    let base = Color { r: fx(500_000), g: fx(250_000), b: fx(750_000), a: fx(1_000_000) };
    let sphere = Sphere {
        center: v3(0, 0, 200_000_000),
        radius: fx(100_000_000),
        options: matte(base, 1_000_000, 0),
    };
    let scene = Scene { lights: vec![], spheres: vec![sphere], boards: vec![] };
    let camera = flat_camera();
    let five = render_pixel(&scene, &camera, 10, 10, 5, 5, true);
    let one = render_pixel(&scene, &camera, 10, 10, 5, 5, false);
    assert_eq!(five, one);
    assert_eq!(one, (127, 63, 191, 255));
}

#[test]
fn supersampling_differs_and_averages_across_an_edge() {
    // a small sphere covers only the central sample: the five-sample
    // byte must lie strictly between the miss color and the hit color
    let sphere = Sphere {
        center: v3(0, 0, 5_000_000),
        radius: fx(100_000),
        options: matte(Color::white(), 1_000_000, 0),
    };
    let scene = Scene { lights: vec![], spheres: vec![sphere], boards: vec![] };
    let camera = flat_camera();
    let five = render_pixel(&scene, &camera, 10, 10, 5, 5, true);
    let one = render_pixel(&scene, &camera, 10, 10, 5, 5, false);
    assert_eq!(one.0, 255);
    assert_eq!(five.0, 51);
    assert!(five.0 > 0 && five.0 < one.0);
}

#[test]
fn render_rect_writes_only_its_rectangle() {
    let base = Color { r: fx(500_000), g: fx(250_000), b: fx(750_000), a: fx(1_000_000) };
    let sphere = Sphere {
        center: v3(0, 0, 200_000_000),
        radius: fx(100_000_000),
        options: matte(base, 1_000_000, 0),
    };
    let scene = Scene { lights: vec![], spheres: vec![sphere], boards: vec![] };
    let camera = flat_camera();
    let mut buf = vec![7u8; 10 * 10 * 4];
    render_rect(&scene, &camera, 10, 10, 2, 4, 1, 2, false, &mut buf);
    assert_eq!(buf.len(), 400);
    // pixel (2, 1) is written with alpha 255
    let idx = (1 * 10 + 2) * 4;
    assert_eq!(buf[idx], 127);
    assert_eq!(buf[idx + 1], 63);
    assert_eq!(buf[idx + 2], 191);
    assert_eq!(buf[idx + 3], 255);
    // pixel (4, 1) is outside the rectangle and untouched
    let out = (1 * 10 + 4) * 4;
    assert_eq!(buf[out], 7);
    // the row before the rectangle is untouched
    assert_eq!(buf[(0 * 10 + 2) * 4], 7);
}

#[test]
fn camera_scales_follow_the_aspect_ratio() {
    let origin = v3(0, 0, 0);
    let ex = v3(1_000_000, 0, 0);
    let ey = v3(0, 1_000_000, 0);
    // square image: both scales are tan(fov / 2)
    let square = Camera::create(origin, ex, ey, fx(1_570_796), 100, 100);
    let tan_quarter = square.x_direction.x.v;
    assert!((999_900..=1_000_100).contains(&tan_quarter), "tan = {tan_quarter}");
    assert_eq!(square.y_direction.y.v, tan_quarter);
    // landscape: the vertical scale shrinks by height / width
    let wide = Camera::create(origin, ex, ey, fx(1_570_796), 200, 100);
    assert_eq!(wide.x_direction.x.v, tan_quarter);
    let expected_y = fx(fx(50_000_000).mul(fx(tan_quarter)).v).div(fx(100_000_000)).v;
    assert_eq!(wide.y_direction.y.v, expected_y);
    // the forward direction is the cross product of the raw inputs
    assert_eq!(square.direction, v3(0, 0, 1_000_000));
}

#[test]
fn grid_ray_combines_the_basis() {
    let camera = Camera {
        origin: v3(1_000_000, 2_000_000, 3_000_000),
        x_direction: v3(500_000, 0, 0),
        y_direction: v3(0, 250_000, 0),
        direction: v3(0, 0, 1_000_000),
    };
    let ray = camera.grid_ray(fx(1_000_000), fx(-2_000_000));
    assert_eq!(ray.origin, v3(1_000_000, 2_000_000, 3_000_000));
    assert_eq!(ray.direction, v3(500_000, -500_000, 1_000_000));
}

#[test]
fn specular_reaches_one_head_on() {
    let light = LightSource { pos: v3(0, 0, 2_000_000), color: Color::white() };
    let point = v3(0, 0, 0);
    let normal = v3(0, 0, 1_000_000);
    let camera_pos = v3(0, 0, 2_000_000);
    assert_eq!(light.specular(&point, &normal, &camera_pos, fx(4_000_000)), fx(1_000_000));
    // a nonpositive coefficient means exponent zero, so the factor is one
    assert_eq!(light.specular(&point, &normal, &camera_pos, fx(-1_000_000)), fx(1_000_000));
}

#[test]
fn diffuse_clamps_at_zero() {
    let light = LightSource { pos: v3(0, 0, -2_000_000), color: Color::white() };
    let point = v3(0, 0, 0);
    let normal = v3(0, 0, 1_000_000);
    assert_eq!(light.diffuse(&point, &normal), fx(0));
    let facing = LightSource { pos: v3(0, 0, 2_000_000), color: Color::white() };
    assert_eq!(facing.diffuse(&point, &normal), fx(1_000_000));
}

#[test]
fn shade_miss_returns_transparent_zero() {
    let scene = Scene { lights: vec![], spheres: vec![], boards: vec![] };
    let ray = Ray { origin: v3(0, 0, 0), direction: v3(0, 0, 1_000_000) };
    let (c, normal, t, _) = scene.shade_with_last_intersect(&ray, 1);
    assert_eq!(c, Color::zero());
    assert_eq!(normal, v3(0, 0, 0));
    assert_eq!(t, fx(0));
}

#[test]
fn scene_scan_order_breaks_ties_for_spheres() {
    // two coincident spheres with different colors: the earlier one in
    // scan order wins a strict-comparison tie
    let a = Sphere {
        center: v3(0, 0, 5_000_000),
        radius: fx(1_000_000),
        options: matte(Color::red(), 1_000_000, 0),
    };
    let b = Sphere {
        center: v3(0, 0, 5_000_000),
        radius: fx(1_000_000),
        options: matte(Color::green(), 1_000_000, 0),
    };
    let scene = Scene { lights: vec![], spheres: vec![a, b], boards: vec![] };
    let ray = Ray { origin: v3(0, 0, 0), direction: v3(0, 0, 1_000_000) };
    let (_, _, _, opts) = scene.intersect(&ray).expect("must hit");
    assert_eq!(opts.base_color, Color::red());
}

#[test]
fn normalize_zero_vector_is_defined() {
    // the reciprocal of a zero norm saturates, and scaling the zero
    // vector by it still yields zero: no panic, no poison value
    let z = v3(0, 0, 0);
    assert_eq!(z.normalize(), v3(0, 0, 0));
}

#[test]
fn checkerboard_parallel_ray_misses() {
    let board = Checkerboard {
        axis: Axis::ZAxis,
        pos: v3(0, 0, 0),
        radius: fx(5_000_000),
        grid_size: fx(1_000_000),
        options: matte(Color::white(), 400_000, 300_000),
    };
    // direction has no z component: the saturated crossing parameter
    // lands beyond the far clamp and the ray is treated as a miss
    let ray = Ray { origin: v3(0, 0, -3_000_000), direction: v3(1_000_000, 0, 0) };
    assert!(board.intersect(&ray).is_none());
}

#[test]
fn y_axis_board_stripes_along_z() {
    // on a y-axis board both checker indices read the z coordinate:
    // a point in x cell 1, z cell 0 still sums to 0 (even), so black
    let board = Checkerboard {
        axis: Axis::YAxis,
        pos: v3(0, -1_000_000, 0),
        radius: fx(5_000_000),
        grid_size: fx(1_000_000),
        options: matte(Color::white(), 400_000, 300_000),
    };
    let ray = Ray {
        origin: v3(1_500_000, 2_000_000, 500_000),
        direction: v3(0, -1_000_000, 0),
    };
    let (_, point, normal, opts) = board.intersect(&ray).expect("must hit");
    assert_eq!(point, v3(1_500_000, -1_000_000, 500_000));
    assert_eq!(normal, v3(0, 1_000_000, 0));
    assert_eq!(opts.base_color, Color::black());
}
