//! The scene: light sources, primitives, nearest-intersection query,
//! and the recursive shading algorithm.
//!
//! The model is stated by `spec_scene_intersect` (a left-to-right scan
//! keeping the closest hit past the bias, spheres before boards) and
//! `spec_shade` (hard shadows, clamped diffuse sum, Phong specular,
//! mirror reflection bounded by an explicit recursion budget).

use vstd::prelude::*;

use crate::color::C4;
use crate::color::Color;
use crate::color::c4_add;
use crate::color::c4_scale;
use crate::color::c4_zero;
use crate::fixed::Fx;
use crate::fixed::SCALE;
use crate::fixed::fx_add;
use crate::fixed::fx_div;
use crate::fixed::fx_max;
use crate::fixed::fx_min;
use crate::fixed::fx_mul;
use crate::fixed::sat64;
use crate::primitives::BoardV;
use crate::primitives::Checkerboard;
use crate::primitives::HitV;
use crate::primitives::Intersection;
use crate::primitives::OptsV;
use crate::primitives::Primitive;
use crate::primitives::ShadingOptions;
use crate::primitives::Sphere;
use crate::primitives::SphereV;
use crate::primitives::ix_view;
use crate::primitives::spec_board_hit;
use crate::primitives::spec_sphere_hit;
use crate::structs::Ray;
use crate::structs::RayV;
use crate::structs::V3;
use crate::structs::Vec3;
use crate::structs::v3_dot;
use crate::structs::v3_neg;
use crate::structs::v3_norm;
use crate::structs::v3_normalize;
use crate::structs::v3_scale;
use crate::structs::v3_sub;
use crate::structs::v3_zero;

verus! {

/// Hits closer than this along a ray are discarded, so a surface never
/// re-intersects its own origin (shadow-acne guard). The same threshold
/// decides whether a reflective weight is worth recursing for.
pub const BIAS_RAW: i64 = 10;

/// A point light: position and color, no distance attenuation.
#[derive(Clone, Copy, Debug, PartialEq, Eq, Structural)]
pub struct LightSource {
    pub pos: Vec3,
    pub color: Color,
}

/// The mathematical model of a light source.
pub ghost struct LightV {
    pub pos: V3,
    pub color: C4,
}

impl View for LightSource {
    type V = LightV;

    open spec fn view(&self) -> LightV {
        LightV { pos: self.pos@, color: self.color@ }
    }
}

/// The mathematical model of a scene.
pub ghost struct SceneV {
    pub lights: Seq<LightV>,
    pub spheres: Seq<SphereV>,
    pub boards: Seq<BoardV>,
}

/// The result of shading a ray: the color, and the last intersection's
/// normal, distance and shading options.
pub ghost struct ShadeV {
    pub color: C4,
    pub normal: V3,
    pub t: int,
    pub opts: OptsV,
}

/// An aggregate of lights and primitives, built fresh per frame.
pub struct Scene {
    pub lights: Vec<LightSource>,
    pub spheres: Vec<Sphere>,
    pub boards: Vec<Checkerboard>,
}

impl View for Scene {
    type V = SceneV;

    open spec fn view(&self) -> SceneV {
        SceneV {
            lights: self.lights@.map_values(|l: LightSource| l@),
            spheres: self.spheres@.map_values(|s: Sphere| s@),
            boards: self.boards@.map_values(|b: Checkerboard| b@),
        }
    }
}

/// The diffuse factor a light contributes at a point: the cosine term,
/// clamped below at zero.
pub open spec fn spec_diffuse(l: LightV, point: V3, normal: V3) -> int {
    let ldir = v3_sub(l.pos, point);
    fx_max(fx_div(v3_dot(normal, ldir), v3_norm(ldir)), 0)
}

/// Repeated fixed-point multiplication: `b` to the power `n`.
pub open spec fn fx_powi(b: int, n: nat) -> int
    decreases n,
{
    if n == 0 {
        SCALE as int
    } else {
        fx_mul(b, fx_powi(b, (n - 1) as nat))
    }
}

/// The whole-number exponent taken from a fixed-point specular
/// coefficient (its integer part; nonpositive coefficients yield 0).
pub open spec fn pow_exp(k: int) -> nat {
    if k <= 0 {
        0
    } else {
        (k / (SCALE as int)) as nat
    }
}

/// The Phong specular factor a light contributes at a point, as seen
/// from `camera_pos`, raised to the surface's exponent.
pub open spec fn spec_specular(l: LightV, point: V3, normal: V3, camera_pos: V3, k: int) -> int {
    let view_dir = v3_normalize(v3_sub(camera_pos, point));
    let light_dir = v3_normalize(v3_sub(l.pos, point));
    let refl = v3_sub(v3_scale(normal, fx_mul(2_000_000, v3_dot(normal, light_dir))), light_dir);
    fx_powi(fx_max(v3_dot(refl, view_dir), 0), pow_exp(k))
}

/// Keeps the closer of a running best hit and a candidate; candidates
/// closer than the bias are discarded, and ties keep the running best.
pub open spec fn pick_closer(best: Option<HitV>, cur: Option<HitV>) -> Option<HitV> {
    match cur {
        None => best,
        Some(h) => if h.t < BIAS_RAW {
            best
        } else {
            match best {
                None => cur,
                Some(bh) => if h.t < bh.t {
                    cur
                } else {
                    best
                },
            }
        },
    }
}

/// The best hit among the first `i` spheres, scanned left to right.
pub open spec fn scan_spheres(spheres: Seq<SphereV>, ray: RayV, i: int) -> Option<HitV>
    decreases i,
{
    if i <= 0 {
        None
    } else {
        pick_closer(scan_spheres(spheres, ray, i - 1), spec_sphere_hit(spheres[i - 1], ray))
    }
}

/// The best hit after also scanning the first `i` boards, starting from
/// the best sphere hit.
pub open spec fn scan_boards(boards: Seq<BoardV>, ray: RayV, i: int, from: Option<HitV>) -> Option<
    HitV,
>
    decreases i,
{
    if i <= 0 {
        from
    } else {
        pick_closer(scan_boards(boards, ray, i - 1, from), spec_board_hit(boards[i - 1], ray))
    }
}

/// The nearest intersection in the scene: all spheres, then all boards.
pub open spec fn spec_scene_intersect(s: SceneV, ray: RayV) -> Option<HitV> {
    scan_boards(
        s.boards,
        ray,
        s.boards.len() as int,
        scan_spheres(s.spheres, ray, s.spheres.len() as int),
    )
}

/// Whether a light reaches a point: the shadow ray toward the light
/// finds no hit strictly more than a bias short of the light's
/// distance. A hit exactly at the bias boundary does not shadow.
pub open spec fn spec_light_visible(s: SceneV, light: LightV, point: V3) -> bool {
    let ldist = v3_norm(v3_sub(light.pos, point));
    let sray = RayV {
        origin: point,
        direction: v3_scale(v3_sub(light.pos, point), fx_div(SCALE as int, ldist)),
    };
    match spec_scene_intersect(s, sray) {
        None => true,
        Some(h) => !(fx_add(h.t, BIAS_RAW as int) < ldist),
    }
}

/// The diffuse intensity and specular color accumulated over the first
/// `i` lights; shadowed lights contribute nothing.
pub open spec fn gather_lights(
    s: SceneV,
    point: V3,
    normal: V3,
    cam: V3,
    k: int,
    i: int,
) -> (int, C4)
    decreases i,
{
    if i <= 0 {
        (0, c4_zero())
    } else {
        let prev = gather_lights(s, point, normal, cam, k, i - 1);
        let light = s.lights[i - 1];
        if spec_light_visible(s, light, point) {
            (
                fx_add(prev.0, spec_diffuse(light, point, normal)),
                c4_add(prev.1, c4_scale(light.color, spec_specular(light, point, normal, cam, k))),
            )
        } else {
            prev
        }
    }
}

/// The shading options reported when a ray hits nothing.
pub open spec fn default_options() -> OptsV {
    OptsV {
        base_color: C4 { r: 0, g: 0, b: SCALE as int, a: SCALE as int },
        ambiant_part: 50_000,
        diffuse_part: 750_000,
        specular_part: 200_000,
        specular_coefficient: 4_000_000,
        reflective_part: 0,
        refraction_index: 0,
    }
}

/// The color seen along the reflected ray, if the surface is reflective
/// enough and budget remains; zero otherwise. At budget zero there is
/// no reflected contribution at all.
pub open spec fn spec_reflected(s: SceneV, ray: RayV, hit: HitV, budget: nat) -> C4
    decreases budget, 0nat,
{
    if hit.opts.reflective_part > BIAS_RAW && budget > 0 {
        let back = v3_neg(v3_normalize(ray.direction));
        let dir = v3_sub(v3_scale(hit.normal, fx_mul(2_000_000, v3_dot(hit.normal, back))), back);
        spec_shade(s, RayV { origin: hit.point, direction: dir }, (budget - 1) as nat).color
    } else {
        c4_zero()
    }
}

/// The full shading algorithm: nearest hit, hard shadows, clamped
/// diffuse sum, Phong specular split over the light count, and a
/// mirror-reflection recursion bounded by `budget`.
pub open spec fn spec_shade(s: SceneV, ray: RayV, budget: nat) -> ShadeV
    decreases budget, 1nat,
{
    match spec_scene_intersect(s, ray) {
        None => ShadeV { color: c4_zero(), normal: v3_zero(), t: 0, opts: default_options() },
        Some(hit) => {
            let acc = gather_lights(
                s,
                hit.point,
                hit.normal,
                ray.origin,
                hit.opts.specular_coefficient,
                s.lights.len() as int,
            );
            let intensity = fx_min(acc.0, SCALE as int);
            let diffuse_color = c4_scale(
                hit.opts.base_color,
                fx_add(fx_mul(hit.opts.diffuse_part, intensity), hit.opts.ambiant_part),
            );
            let specular_color = c4_scale(
                acc.1,
                fx_div(hit.opts.specular_part, sat64(s.lights.len() * (SCALE as int))),
            );
            let reflected = c4_scale(spec_reflected(s, ray, hit, budget), hit.opts.reflective_part);
            ShadeV {
                color: c4_add(c4_add(diffuse_color, specular_color), reflected),
                normal: hit.normal,
                t: hit.t,
                opts: hit.opts,
            }
        },
    }
}

/// Repeated fixed-point multiplication in executable code.
fn fx_powi_exec(base: Fx, n: u64) -> (r: Fx)
    ensures
        r@ == fx_powi(base@, n as nat),
{
    let mut result: Fx = Fx { v: SCALE };
    let mut i: u64 = 0;
    while i < n
        invariant
            i <= n,
            result@ == fx_powi(base@, i as nat),
        decreases n - i,
    {
        result = base.mul(result);
        i = i + 1;
    }
    result
}

impl LightSource {
    /// The diffuse factor this light contributes at a point.
    pub fn diffuse(&self, intersection: &Vec3, normal: &Vec3) -> (r: Fx)
        ensures
            r@ == spec_diffuse(self@, intersection@, normal@),
    {
        let light_direction: Vec3 = self.pos.sub(*intersection);
        let d: Fx = normal.dot(light_direction).div(light_direction.norm());
        if d.v > 0 {
            d
        } else {
            Fx { v: 0 }
        }
    }

    /// The Phong specular factor this light contributes at a point.
    pub fn specular(
        &self,
        intersection_point: &Vec3,
        normal: &Vec3,
        camera_pos: &Vec3,
        specular_coefficient: Fx,
    ) -> (r: Fx)
        ensures
            r@ == spec_specular(
                self@,
                intersection_point@,
                normal@,
                camera_pos@,
                specular_coefficient@,
            ),
    {
        let view_dir: Vec3 = camera_pos.sub(*intersection_point).normalize();
        let light_dir: Vec3 = self.pos.sub(*intersection_point).normalize();
        let refl: Vec3 = normal.scale(Fx { v: 2_000_000 }.mul(normal.dot(light_dir))).sub(
            light_dir,
        );
        let c: Fx = refl.dot(view_dir);
        let base: Fx = if c.v > 0 {
            c
        } else {
            Fx { v: 0 }
        };
        let n: u64 = if specular_coefficient.v <= 0 {
            0
        } else {
            (specular_coefficient.v as u64) / (SCALE as u64)
        };
        fx_powi_exec(base, n)
    }
}

/// The shading options reported when a ray hits nothing: a matte blue.
pub fn standard_options() -> (r: ShadingOptions)
    ensures
        r@ == default_options(),
{
    ShadingOptions {
        base_color: Color::blue(),
        ambiant_part: Fx { v: 50_000 },
        diffuse_part: Fx { v: 750_000 },
        specular_part: Fx { v: 200_000 },
        specular_coefficient: Fx { v: 4_000_000 },
        reflective_part: Fx { v: 0 },
        refraction_index: Fx { v: 0 },
    }
}

/// The model of the soft white checkerboard material.
pub open spec fn spec_white_options() -> OptsV {
    OptsV {
        base_color: C4 { r: SCALE as int, g: SCALE as int, b: SCALE as int, a: SCALE as int },
        ambiant_part: 400_000,
        diffuse_part: 300_000,
        specular_part: 300_000,
        specular_coefficient: 4_000_000,
        reflective_part: 0,
        refraction_index: 0,
    }
}

/// A soft white material for the checkerboards.
pub fn white_options() -> (r: ShadingOptions)
    ensures
        r@ == spec_white_options(),
{
    ShadingOptions {
        base_color: Color::white(),
        ambiant_part: Fx { v: 400_000 },
        diffuse_part: Fx { v: 300_000 },
        specular_part: Fx { v: 300_000 },
        specular_coefficient: Fx { v: 4_000_000 },
        reflective_part: Fx { v: 0 },
        refraction_index: Fx { v: 0 },
    }
}

/// Keeps the closer of a running best hit and a candidate, as
/// [`pick_closer`] does.
fn choose_best(best: Intersection, cur: Intersection) -> (r: Intersection)
    ensures
        ix_view(r) == pick_closer(ix_view(best), ix_view(cur)),
{
    match cur {
        None => best,
        Some(q) => {
            if q.0.v < BIAS_RAW {
                best
            } else {
                match best {
                    None => cur,
                    Some(b) => if q.0.v < b.0.v {
                        cur
                    } else {
                        best
                    },
                }
            }
        },
    }
}

impl Scene {
    /// The nearest intersection past the bias, spheres scanned before
    /// boards, ties keeping the earlier primitive.
    pub fn intersect(&self, ray: &Ray) -> (r: Intersection)
        ensures
            ix_view(r) == spec_scene_intersect(self@, ray@),
    {
        let mut best: Intersection = None;
        let mut i: usize = 0;
        while i < self.spheres.len()
            invariant
                i <= self.spheres@.len(),
                ix_view(best) == scan_spheres(self@.spheres, ray@, i as int),
            decreases self.spheres@.len() - i,
        {
            let cur: Intersection = self.spheres[i].intersect(ray);
            best = choose_best(best, cur);
            i = i + 1;
        }
        let mut j: usize = 0;
        let ghost from_spheres = ix_view(best);
        while j < self.boards.len()
            invariant
                j <= self.boards@.len(),
                from_spheres == scan_spheres(self@.spheres, ray@, self@.spheres.len() as int),
                ix_view(best) == scan_boards(self@.boards, ray@, j as int, from_spheres),
            decreases self.boards@.len() - j,
        {
            let cur: Intersection = self.boards[j].intersect(ray);
            best = choose_best(best, cur);
            j = j + 1;
        }
        best
    }

    /// The color shaded along a ray with the given reflection budget.
    pub fn shade(&self, ray: &Ray, recursive: u32) -> (c: Color)
        ensures
            c@ == spec_shade(self@, ray@, recursive as nat).color,
        decreases recursive, 1int,
    {
        let (c, _n, _t, _o) = self.shade_with_last_intersect(ray, recursive);
        c
    }

    /// Shades a ray and also reports the last intersection's normal,
    /// distance and shading options (zeros and the default options when
    /// nothing is hit); see [`spec_shade`].
    #[verifier::rlimit(100)]
    pub fn shade_with_last_intersect(&self, ray: &Ray, recursive: u32) -> (r: (
        Color,
        Vec3,
        Fx,
        ShadingOptions,
    ))
        ensures
            ({
                let o = spec_shade(self@, ray@, recursive as nat);
                r.0@ == o.color && r.1@ == o.normal && r.2@ == o.t && r.3@ == o.opts
            }),
        decreases recursive, 0int,
    {
        match self.intersect(ray) {
            Some((t, intersection_point, normal, options)) => {
                let mut light_intensity: Fx = Fx { v: 0 };
                let mut specular_color: Color = Color::zero();
                let mut li: usize = 0;
                while li < self.lights.len()
                    invariant
                        li <= self.lights@.len(),
                        (light_intensity@, specular_color@) == gather_lights(
                            self@,
                            intersection_point@,
                            normal@,
                            ray@.origin,
                            options@.specular_coefficient,
                            li as int,
                        ),
                    decreases self.lights@.len() - li,
                {
                    let light: LightSource = self.lights[li];
                    let d: Fx = light.pos.sub(intersection_point).norm();
                    let light_ray: Ray = Ray {
                        origin: intersection_point,
                        direction: light.pos.sub(intersection_point).scale(
                            Fx { v: SCALE }.div(d),
                        ),
                    };
                    let blocked: bool = match self.intersect(&light_ray) {
                        None => false,
                        Some((st, _sp, _sn, _so)) => st.add(Fx { v: BIAS_RAW }).v < d.v,
                    };
                    if !blocked {
                        light_intensity = light_intensity.add(
                            light.diffuse(&intersection_point, &normal),
                        );
                        let specular_intensity: Fx = light.specular(
                            &intersection_point,
                            &normal,
                            &ray.origin,
                            options.specular_coefficient,
                        );
                        specular_color = specular_color.add(
                            light.color.scale(specular_intensity),
                        );
                    }
                    li = li + 1;
                }
                if light_intensity.v > SCALE {
                    light_intensity = Fx { v: SCALE };
                }
                let diffuse_color: Color = options.base_color.scale(
                    options.diffuse_part.mul(light_intensity).add(options.ambiant_part),
                );
                let specular_scaled: Color = specular_color.scale(
                    options.specular_part.div(Fx::from_usize(self.lights.len())),
                );
                let reflected: Color = if options.reflective_part.v > BIAS_RAW && recursive > 0 {
                    let back: Vec3 = ray.direction.normalize().neg();
                    let direction: Vec3 = normal.scale(
                        Fx { v: 2_000_000 }.mul(normal.dot(back)),
                    ).sub(back);
                    let reflected_ray: Ray = Ray { origin: intersection_point, direction };
                    self.shade(&reflected_ray, recursive - 1)
                } else {
                    Color::zero()
                };
                let reflected_scaled: Color = reflected.scale(options.reflective_part);
                (diffuse_color.add(specular_scaled).add(reflected_scaled), normal, t, options)
            },
            None => (Color::zero(), Vec3::zero(), Fx { v: 0 }, standard_options()),
        }
    }
}

} // verus!
