//! Frame construction: builds the animated demo scene and camera from
//! the caller's view parameters and an animation time, and the
//! top-level entry that renders a pixel rectangle of that frame.

use vstd::prelude::*;

use crate::camera::CamV;
use crate::camera::Camera;
use crate::camera::spec_camera_create;
use crate::color::C4;
use crate::color::Color;
use crate::fixed::Fx;
use crate::fixed::SCALE;
use crate::fixed::fx_add;
use crate::fixed::fx_div;
use crate::fixed::fx_mul;
use crate::primitives::Axis;
use crate::primitives::Checkerboard;
use crate::primitives::OptsV;
use crate::primitives::ShadingOptions;
use crate::primitives::Sphere;
use crate::primitives::SphereV;
use crate::primitives::BoardV;
use crate::render::render_rect;
use crate::render::spec_render_byte;
use crate::scene::LightSource;
use crate::scene::LightV;
use crate::scene::Scene;
use crate::scene::SceneV;
use crate::scene::default_options;
use crate::scene::standard_options;
use crate::scene::spec_white_options;
use crate::scene::white_options;
use crate::structs::V3;
use crate::structs::Vec3;
use crate::structs::v3_add;
use crate::structs::v3_rotate;
use crate::structs::v3_scale;
use crate::trig::fx_cos;
use crate::trig::fx_sin;

verus! {

/// Two thirds of a turn's half: the spheres' angular spacing.
pub const TWO_THIRDS_PI_FX: i64 = 2_094_395;

/// Twice [`TWO_THIRDS_PI_FX`].
pub const FOUR_THIRDS_PI_FX: i64 = 4_188_790;

/// The camera origin: a fixed vantage plus the caller's offsets along
/// the world axes.
pub open spec fn spec_setup_origin(camera_x: int, camera_y: int, camera_z: int) -> V3 {
    v3_add(
        v3_add(
            v3_add(
                V3 { x: 0, y: 2_500_000, z: 3_000_000 },
                v3_scale(V3 { x: SCALE as int, y: 0, z: 0 }, camera_x),
            ),
            v3_scale(V3 { x: 0, y: SCALE as int, z: 0 }, camera_y),
        ),
        v3_scale(V3 { x: 0, y: 0, z: SCALE as int }, camera_z),
    )
}

/// A screen basis vector: the world axis rotated by the caller's
/// angles, then pitched down by the fixed default.
pub open spec fn spec_setup_basis(axis: V3, x_rot: int, y_rot: int, z_rot: int) -> V3 {
    v3_rotate(v3_rotate(axis, x_rot, y_rot, z_rot), 900_000, 0, 0)
}

/// The materials of the three orbiting mirrored spheres.
pub open spec fn spec_reflective_options() -> OptsV {
    OptsV {
        base_color: C4 { r: 0, g: SCALE as int, b: 0, a: SCALE as int },
        ambiant_part: 200_000,
        diffuse_part: 400_000,
        specular_part: 0,
        specular_coefficient: 4_000_000,
        reflective_part: 400_000,
        refraction_index: 0,
    }
}

/// One orbiting sphere at angle `ang`.
pub open spec fn spec_orbiter(ang: int) -> SphereV {
    SphereV {
        center: V3 {
            x: fx_mul(1_150_000, fx_cos(ang)),
            y: fx_mul(1_150_000, fx_sin(ang)),
            z: 4_100_000,
        },
        radius: 300_000,
        options: spec_reflective_options(),
    }
}

/// One of the two checkerboard discs, at height `z`.
pub open spec fn spec_setup_board(z: int, white: OptsV) -> BoardV {
    BoardV {
        axis: Axis::ZAxis,
        pos: V3 { x: 0, y: 0, z: z },
        radius: 2_000_000,
        grid_size: 250_000,
        options: white,
    }
}

/// The animated demo scene at (halved) time `t`: one moving white
/// light, a large matte sphere, three orbiting mirrored spheres, and
/// two checkerboard discs.
pub open spec fn spec_setup_scene(t: int, white: OptsV, blue: OptsV) -> SceneV {
    let u = fx_sin(fx_add(fx_mul(500_000, t), 1_500_000));
    SceneV {
        lights: seq![
            LightV {
                pos: V3 {
                    x: fx_mul(5_000_000, fx_cos(u)),
                    y: fx_mul(4_000_000, fx_sin(u)),
                    z: fx_mul(1_800_000, u),
                },
                color: C4 {
                    r: SCALE as int,
                    g: SCALE as int,
                    b: SCALE as int,
                    a: SCALE as int,
                },
            },
        ],
        spheres: seq![
            SphereV {
                center: V3 { x: 0, y: 0, z: 5_000_000 },
                radius: SCALE as int,
                options: blue,
            },
            spec_orbiter(t),
            spec_orbiter(fx_add(t, TWO_THIRDS_PI_FX as int)),
            spec_orbiter(fx_add(t, FOUR_THIRDS_PI_FX as int)),
        ],
        boards: seq![spec_setup_board(5_000_000, white), spec_setup_board(0, white)],
    }
}

/// The camera of the frame.
pub open spec fn spec_setup_camera(
    camera_x: int,
    camera_y: int,
    camera_z: int,
    x_rot: int,
    y_rot: int,
    z_rot: int,
    fov: int,
    width: int,
    height: int,
) -> CamV {
    spec_camera_create(
        spec_setup_origin(camera_x, camera_y, camera_z),
        spec_setup_basis(V3 { x: SCALE as int, y: 0, z: 0 }, x_rot, y_rot, z_rot),
        spec_setup_basis(V3 { x: 0, y: SCALE as int, z: 0 }, x_rot, y_rot, z_rot),
        fov,
        width,
        height,
    )
}

/// Builds the animated demo scene and its camera; the animation time
/// is halved before use, as [`spec_setup_scene`] expects.
#[verifier::rlimit(100)]
pub fn render_scene(
    camera_x: Fx,
    camera_y: Fx,
    camera_z: Fx,
    x_rot: Fx,
    y_rot: Fx,
    z_rot: Fx,
    fov: Fx,
    width: usize,
    height: usize,
    t: Fx,
) -> (r: (Scene, Camera))
    ensures
        r.0@ == spec_setup_scene(fx_div(t@, 2_000_000), spec_white_options(), default_options()),
        r.1@ == spec_setup_camera(
            camera_x@,
            camera_y@,
            camera_z@,
            x_rot@,
            y_rot@,
            z_rot@,
            fov@,
            width as int,
            height as int,
        ),
{
    let t_half: Fx = t.div(Fx { v: 2_000_000 });
    let default_x_rot: Fx = Fx { v: 900_000 };
    let zero: Fx = Fx { v: 0 };
    let origin: Vec3 = Vec3 { x: Fx { v: 0 }, y: Fx { v: 2_500_000 }, z: Fx { v: 3_000_000 } }.add(
        Vec3 { x: Fx { v: SCALE }, y: Fx { v: 0 }, z: Fx { v: 0 } }.scale(camera_x),
    ).add(Vec3 { x: Fx { v: 0 }, y: Fx { v: SCALE }, z: Fx { v: 0 } }.scale(camera_y)).add(
        Vec3 { x: Fx { v: 0 }, y: Fx { v: 0 }, z: Fx { v: SCALE } }.scale(camera_z),
    );

    let x_direction: Vec3 = Vec3 { x: Fx { v: SCALE }, y: Fx { v: 0 }, z: Fx { v: 0 } }.rotate(
        x_rot,
        y_rot,
        z_rot,
    ).rotate(default_x_rot, zero, zero);
    let y_direction: Vec3 = Vec3 { x: Fx { v: 0 }, y: Fx { v: SCALE }, z: Fx { v: 0 } }.rotate(
        x_rot,
        y_rot,
        z_rot,
    ).rotate(default_x_rot, zero, zero);
    let camera: Camera = Camera::create(origin, x_direction, y_direction, fov, width, height);

    let u: Fx = Fx { v: 500_000 }.mul(t_half).add(Fx { v: 1_500_000 }).sin();
    let light: LightSource = LightSource {
        pos: Vec3 {
            x: Fx { v: 5_000_000 }.mul(u.cos()),
            y: Fx { v: 4_000_000 }.mul(u.sin()),
            z: Fx { v: 1_800_000 }.mul(u),
        },
        color: Color::white(),
    };

    let reflective_options: ShadingOptions = ShadingOptions {
        base_color: Color::green(),
        ambiant_part: Fx { v: 200_000 },
        diffuse_part: Fx { v: 400_000 },
        specular_part: Fx { v: 0 },
        specular_coefficient: Fx { v: 4_000_000 },
        reflective_part: Fx { v: 400_000 },
        refraction_index: Fx { v: 0 },
    };
    let big_sphere: Sphere = Sphere {
        center: Vec3 { x: Fx { v: 0 }, y: Fx { v: 0 }, z: Fx { v: 5_000_000 } },
        radius: Fx { v: SCALE },
        options: standard_options(),
    };
    let sphere1: Sphere = orbiter(t_half, reflective_options);
    let sphere2: Sphere = orbiter(t_half.add(Fx { v: TWO_THIRDS_PI_FX }), reflective_options);
    let sphere3: Sphere = orbiter(t_half.add(Fx { v: FOUR_THIRDS_PI_FX }), reflective_options);
    let checkerboard1: Checkerboard = board_at(Fx { v: 5_000_000 });
    let checkerboard2: Checkerboard = board_at(Fx { v: 0 });
    let scene: Scene = Scene {
        lights: vec![light],
        spheres: vec![big_sphere, sphere1, sphere2, sphere3],
        boards: vec![checkerboard1, checkerboard2],
    };
    proof {
        let sv = spec_setup_scene(fx_div(t@, 2_000_000), spec_white_options(), default_options());
        assert(scene@.lights =~= sv.lights);
        assert(scene@.spheres =~= sv.spheres);
        assert(scene@.boards =~= sv.boards);
    }
    (scene, camera)
}

/// One orbiting mirrored sphere at angle `ang`.
fn orbiter(ang: Fx, options: ShadingOptions) -> (r: Sphere)
    requires
        options@ == spec_reflective_options(),
    ensures
        r@ == spec_orbiter(ang@),
{
    Sphere {
        center: Vec3 {
            x: Fx { v: 1_150_000 }.mul(ang.cos()),
            y: Fx { v: 1_150_000 }.mul(ang.sin()),
            z: Fx { v: 4_100_000 },
        },
        radius: Fx { v: 300_000 },
        options,
    }
}

/// One checkerboard disc at height `z`.
fn board_at(z: Fx) -> (r: Checkerboard)
    ensures
        r@ == spec_setup_board(z@, spec_white_options()),
{
    Checkerboard {
        axis: Axis::ZAxis,
        pos: Vec3 { x: Fx { v: 0 }, y: Fx { v: 0 }, z },
        radius: Fx { v: 2_000_000 },
        grid_size: Fx { v: 250_000 },
        options: white_options(),
    }
}

/// Renders one pixel rectangle of the animated frame into the
/// caller-owned framebuffer; see [`render_rect`] for the layout.
pub fn generate_image(
    width: usize,
    height: usize,
    start_x: usize,
    end_x: usize,
    start_y: usize,
    end_y: usize,
    camera_x: Fx,
    camera_y: Fx,
    camera_z: Fx,
    x_rot: Fx,
    y_rot: Fx,
    z_rot: Fx,
    fov: Fx,
    supersampling: bool,
    t: Fx,
    buf: &mut Vec<u8>,
)
    requires
        end_x <= width,
        end_y * width * 4 <= old(buf).len(),
    ensures
        final(buf)@.len() == old(buf)@.len(),
        forall|j: int|
            0 <= j < old(buf)@.len() ==> #[trigger] final(buf)@[j] as int == spec_render_byte(
                old(buf)@,
                spec_setup_scene(fx_div(t@, 2_000_000), spec_white_options(), default_options()),
                spec_setup_camera(
                    camera_x@,
                    camera_y@,
                    camera_z@,
                    x_rot@,
                    y_rot@,
                    z_rot@,
                    fov@,
                    width as int,
                    height as int,
                ),
                width as int,
                height as int,
                start_x as int,
                end_x as int,
                start_y as int,
                end_y as int,
                start_x as int,
                supersampling,
                j,
            ),
{
    let (scene, camera) = render_scene(
        camera_x,
        camera_y,
        camera_z,
        x_rot,
        y_rot,
        z_rot,
        fov,
        width,
        height,
        t,
    );
    render_rect(
        &scene,
        &camera,
        width,
        height,
        start_x,
        end_x,
        start_y,
        end_y,
        supersampling,
        buf,
    );
}

} // verus!
