//! Intersectable primitives: spheres and checkerboard-textured discs.
//!
//! Each primitive reports, for a ray, an optional hit: the parameter
//! `t` along the ray, the world point, the unit surface normal, and the
//! surface's shading options. The spec functions state the result of
//! each test exactly, in the fixed-point model.

use vstd::prelude::*;

use crate::color::C4;
use crate::color::Color;
use crate::color::c4_black;
use crate::fixed::Fx;
use crate::fixed::SCALE;
use crate::fixed::abs_int;
use crate::fixed::fx_div;
use crate::fixed::fx_mul;
use crate::fixed::fx_neg;
use crate::fixed::fx_sqrt;
use crate::fixed::fx_sub;
use crate::fixed::lemma_euclid_unique;
use crate::fixed::sat64;
use crate::structs::Ray;
use crate::structs::RayV;
use crate::structs::V3;
use crate::structs::Vec3;
use crate::structs::ray_at;
use crate::structs::v3_dot;
use crate::structs::v3_norm;
use crate::structs::v3_normalize;
use crate::structs::v3_sub;

verus! {

/// Rays crossing a plane farther than this are treated as parallel
/// misses (a guard against near-parallel directions, not a geometric
/// truth).
pub const T_LIMIT_RAW: i64 = 1_000_000_000_000_000_000;

/// The mathematical model of a surface's shading parameters.
pub ghost struct OptsV {
    pub base_color: C4,
    pub ambiant_part: int,
    pub diffuse_part: int,
    pub specular_part: int,
    pub specular_coefficient: int,
    pub reflective_part: int,
    pub refraction_index: int,
}

/// The mathematical model of a hit: parameter, point, unit normal, and
/// the surface's resolved shading options.
pub ghost struct HitV {
    pub t: int,
    pub point: V3,
    pub normal: V3,
    pub opts: OptsV,
}

/// Per-surface material parameters. `refraction_index` is carried but
/// never consumed: refraction is unsupported.
#[derive(Clone, Copy, Debug, PartialEq, Eq, Structural)]
pub struct ShadingOptions {
    pub base_color: Color,
    pub ambiant_part: Fx,
    pub diffuse_part: Fx,
    pub specular_part: Fx,
    pub specular_coefficient: Fx,
    pub reflective_part: Fx,
    pub refraction_index: Fx,
}

impl View for ShadingOptions {
    type V = OptsV;

    open spec fn view(&self) -> OptsV {
        OptsV {
            base_color: self.base_color@,
            ambiant_part: self.ambiant_part@,
            diffuse_part: self.diffuse_part@,
            specular_part: self.specular_part@,
            specular_coefficient: self.specular_coefficient@,
            reflective_part: self.reflective_part@,
            refraction_index: self.refraction_index@,
        }
    }
}

/// An optional hit: `(t, point, normal, shading options)`.
pub type Intersection = Option<(Fx, Vec3, Vec3, ShadingOptions)>;

/// A surface that can report ray intersections: its hit model, and an
/// executable test proved to match it.
pub trait Primitive {
    /// The model of this surface's intersection test.
    spec fn spec_hit(&self, ray: RayV) -> Option<HitV>;

    /// Computes the intersection with the primitive: the distance, the
    /// intersection point, the unit normal and the surface's shading
    /// options, or `None` when the ray misses.
    fn intersect(&self, ray: &Ray) -> (r: Intersection)
        ensures
            ix_view(r) == self.spec_hit(ray@),
    ;
}

/// The model of an [`Intersection`].
pub open spec fn ix_view(r: Intersection) -> Option<HitV> {
    match r {
        Some(q) => Some(HitV { t: q.0@, point: q.1@, normal: q.2@, opts: q.3@ }),
        None => None,
    }
}

/// A sphere.
#[derive(Clone, Copy, Debug, PartialEq, Eq, Structural)]
pub struct Sphere {
    pub center: Vec3,
    pub radius: Fx,
    pub options: ShadingOptions,
}

/// The mathematical model of a sphere.
pub ghost struct SphereV {
    pub center: V3,
    pub radius: int,
    pub options: OptsV,
}

impl View for Sphere {
    type V = SphereV;

    open spec fn view(&self) -> SphereV {
        SphereV { center: self.center@, radius: self.radius@, options: self.options@ }
    }
}

/// The quadratic ray-sphere test. Only the near root is reported (a ray
/// starting inside the sphere yields no hit from the inner surface),
/// and the root may be negative; callers filter.
pub open spec fn spec_sphere_hit(s: SphereV, ray: RayV) -> Option<HitV> {
    let oc = v3_sub(ray.origin, s.center);
    let a = v3_dot(ray.direction, ray.direction);
    let b = fx_mul(2_000_000, v3_dot(ray.direction, oc));
    let c = fx_sub(v3_dot(oc, oc), fx_mul(s.radius, s.radius));
    let d = fx_sub(fx_mul(b, b), fx_mul(fx_mul(4_000_000, a), c));
    if d < 0 {
        None
    } else {
        let t = fx_div(fx_sub(fx_neg(b), fx_sqrt(d)), fx_mul(2_000_000, a));
        let point = ray_at(ray, t);
        let normal = v3_normalize(v3_sub(point, s.center));
        Some(HitV { t, point, normal, opts: s.options })
    }
}

impl Primitive for Sphere {
    open spec fn spec_hit(&self, ray: RayV) -> Option<HitV> {
        spec_sphere_hit(self@, ray)
    }

    /// Intersects a ray with the sphere; see [`spec_sphere_hit`].
    fn intersect(&self, ray: &Ray) -> (r: Intersection) {
        let oc: Vec3 = ray.origin.sub(self.center);
        let a: Fx = ray.direction.dot(ray.direction);
        let b: Fx = Fx { v: 2_000_000 }.mul(ray.direction.dot(oc));
        let c: Fx = oc.dot(oc).sub(self.radius.mul(self.radius));
        let d: Fx = b.mul(b).sub(Fx { v: 4_000_000 }.mul(a).mul(c));
        if d.v < 0 {
            return None;
        }
        let t: Fx = b.neg().sub(d.sqrt()).div(Fx { v: 2_000_000 }.mul(a));
        let point: Vec3 = ray.at(t);
        let normal: Vec3 = point.sub(self.center).normalize();
        Some((t, point, normal, self.options))
    }
}

/// The coordinate axis a checkerboard plane is perpendicular to.
#[derive(Clone, Copy, Debug, PartialEq, Eq, Structural)]
pub enum Axis {
    XAxis,
    YAxis,
    ZAxis,
}

/// An infinite axis-aligned plane, clipped to a disc, with a
/// checkerboard texture.
#[derive(Clone, Copy, Debug, PartialEq, Eq, Structural)]
pub struct Checkerboard {
    pub axis: Axis,
    pub pos: Vec3,
    pub radius: Fx,
    pub grid_size: Fx,
    pub options: ShadingOptions,
}

/// The mathematical model of a checkerboard disc.
pub ghost struct BoardV {
    pub axis: Axis,
    pub pos: V3,
    pub radius: int,
    pub grid_size: int,
    pub options: OptsV,
}

impl View for Checkerboard {
    type V = BoardV;

    open spec fn view(&self) -> BoardV {
        BoardV {
            axis: self.axis,
            pos: self.pos@,
            radius: self.radius@,
            grid_size: self.grid_size@,
            options: self.options@,
        }
    }
}

/// The component of `v` along `a`.
pub open spec fn axis_coord(v: V3, a: Axis) -> int {
    match a {
        Axis::XAxis => v.x,
        Axis::YAxis => v.y,
        Axis::ZAxis => v.z,
    }
}

/// The grid cell a coordinate falls in: the floor of `c / g`, saturated
/// into the raw range. A zero grid size is degenerate and yields cell
/// zero.
pub open spec fn cell_of(c: int, g: int) -> int {
    if g == 0 {
        0
    } else {
        sat64((if g < 0 {
            -c
        } else {
            c
        }) / abs_int(g))
    }
}

/// The checker index sum for the hit point. On a y-axis board both
/// terms read the z coordinate, so cells stripe along z rather than
/// checker; this is the engine's defined behavior.
pub open spec fn cell_sum(a: Axis, p: V3, g: int) -> int {
    match a {
        Axis::XAxis => cell_of(p.y, g) + cell_of(p.z, g),
        Axis::YAxis => cell_of(p.z, g) + cell_of(p.z, g),
        Axis::ZAxis => cell_of(p.x, g) + cell_of(p.y, g),
    }
}

/// The plane normal, pointing toward the ray origin's side.
pub open spec fn board_normal(a: Axis, origin_coord: int, ax_pos: int) -> V3 {
    let s: int = if origin_coord > ax_pos {
        SCALE as int
    } else {
        -(SCALE as int)
    };
    match a {
        Axis::XAxis => V3 { x: s, y: 0, z: 0 },
        Axis::YAxis => V3 { x: 0, y: s, z: 0 },
        Axis::ZAxis => V3 { x: 0, y: 0, z: s },
    }
}

/// The ray-checkerboard test: solve for the plane crossing, clamp the
/// parameter to `[0, T_LIMIT_RAW]`, clip to the disc, and force the
/// base color to black on cells with an even index sum.
pub open spec fn spec_board_hit(b: BoardV, ray: RayV) -> Option<HitV> {
    let ax_pos = axis_coord(b.pos, b.axis);
    let t = fx_div(
        fx_sub(ax_pos, axis_coord(ray.origin, b.axis)),
        axis_coord(ray.direction, b.axis),
    );
    if t < 0 || t > T_LIMIT_RAW {
        None
    } else {
        let point = ray_at(ray, t);
        if v3_norm(v3_sub(point, b.pos)) > b.radius {
            None
        } else {
            let base = if cell_sum(b.axis, point, b.grid_size) % 2 == 0 {
                c4_black()
            } else {
                b.options.base_color
            };
            let opts = OptsV {
                base_color: base,
                ambiant_part: b.options.ambiant_part,
                diffuse_part: b.options.diffuse_part,
                specular_part: b.options.specular_part,
                specular_coefficient: b.options.specular_coefficient,
                reflective_part: b.options.reflective_part,
                refraction_index: b.options.refraction_index,
            };
            Some(
                HitV {
                    t,
                    point,
                    normal: board_normal(b.axis, axis_coord(ray.origin, b.axis), ax_pos),
                    opts,
                },
            )
        }
    }
}

/// The grid cell for a raw coordinate; executable form of [`cell_of`].
fn cell_index(c: i64, g: i64) -> (r: i64)
    ensures
        r as int == cell_of(c as int, g as int),
{
    if g == 0 {
        return 0;
    }
    let n: i128 = if g < 0 {
        -(c as i128)
    } else {
        c as i128
    };
    let d: i128 = if g < 0 {
        -(g as i128)
    } else {
        g as i128
    };
    if n >= 0 {
        let q: u128 = (n as u128) / (d as u128);
        if q > 0x7fff_ffff_ffff_ffffu128 {
            i64::MAX
        } else {
            q as i64
        }
    } else {
        let q0: u128 = ((-n) as u128) / (d as u128);
        let r0: u128 = ((-n) as u128) % (d as u128);
        proof {
            let ni = n as int;
            let di = d as int;
            vstd::arithmetic::div_mod::lemma_fundamental_div_mod(-ni, di);
            assert(q0 as int == (-ni) / di);
            assert(r0 as int == (-ni) % di);
            assert(-ni == di * (q0 as int) + (r0 as int));
            assert((-(q0 as int)) * di == -(di * (q0 as int))) by (nonlinear_arith);
            assert((-(q0 as int) - 1) * di == -(di * (q0 as int)) - di) by (nonlinear_arith);
            if r0 == 0 {
                lemma_euclid_unique(ni, di, -(q0 as int), 0);
            } else {
                lemma_euclid_unique(ni, di, -(q0 as int) - 1, di - (r0 as int));
                assert(q0 as int <= di * (q0 as int)) by (nonlinear_arith)
                    requires
                        di >= 1 && q0 as int >= 0,
                ;
            }
        }
        if r0 == 0 {
            if q0 >= 0x8000_0000_0000_0000u128 {
                i64::MIN
            } else {
                -(q0 as i64)
            }
        } else {
            if q0 + 1 >= 0x8000_0000_0000_0000u128 {
                i64::MIN
            } else {
                -(q0 as i64) - 1
            }
        }
    }
}

/// Whether two cell indices sum to an even number.
fn cells_even(a: i64, b: i64) -> (r: bool)
    ensures
        r == ((a + b) % 2 == 0),
{
    let s: i128 = (a as i128) + (b as i128);
    if s >= 0 {
        (s as u128) % 2 == 0
    } else {
        let m: u128 = (-s) as u128;
        proof {
            let si = s as int;
            vstd::arithmetic::div_mod::lemma_fundamental_div_mod(si, 2);
            let q = si / 2;
            let r2 = si % 2;
            if r2 == 0 {
                lemma_euclid_unique(-si, 2, -q, 0);
            } else {
                lemma_euclid_unique(-si, 2, -q - 1, 1);
            }
        }
        m % 2 == 0
    }
}

impl Primitive for Checkerboard {
    open spec fn spec_hit(&self, ray: RayV) -> Option<HitV> {
        spec_board_hit(self@, ray)
    }

    /// Intersects a ray with the checkerboard disc; see
    /// [`spec_board_hit`].
    fn intersect(&self, ray: &Ray) -> (r: Intersection) {
        let ax_pos: Fx = match self.axis {
            Axis::XAxis => self.pos.x,
            Axis::YAxis => self.pos.y,
            Axis::ZAxis => self.pos.z,
        };
        let t: Fx = match self.axis {
            Axis::XAxis => ax_pos.sub(ray.origin.x).div(ray.direction.x),
            Axis::YAxis => ax_pos.sub(ray.origin.y).div(ray.direction.y),
            Axis::ZAxis => ax_pos.sub(ray.origin.z).div(ray.direction.z),
        };
        if t.v < 0 || t.v > T_LIMIT_RAW {
            return None;
        }
        let normal: Vec3 = match self.axis {
            Axis::XAxis => Vec3 {
                x: if ray.origin.x.v > ax_pos.v {
                    Fx { v: SCALE }
                } else {
                    Fx { v: -SCALE }
                },
                y: Fx { v: 0 },
                z: Fx { v: 0 },
            },
            Axis::YAxis => Vec3 {
                x: Fx { v: 0 },
                y: if ray.origin.y.v > ax_pos.v {
                    Fx { v: SCALE }
                } else {
                    Fx { v: -SCALE }
                },
                z: Fx { v: 0 },
            },
            Axis::ZAxis => Vec3 {
                x: Fx { v: 0 },
                y: Fx { v: 0 },
                z: if ray.origin.z.v > ax_pos.v {
                    Fx { v: SCALE }
                } else {
                    Fx { v: -SCALE }
                },
            },
        };
        let point: Vec3 = ray.at(t);
        if point.sub(self.pos).norm().v > self.radius.v {
            return None;
        }
        let d1: i64 = match self.axis {
            Axis::XAxis => cell_index(point.y.v, self.grid_size.v),
            Axis::YAxis => cell_index(point.z.v, self.grid_size.v),
            Axis::ZAxis => cell_index(point.x.v, self.grid_size.v),
        };
        let d2: i64 = match self.axis {
            Axis::XAxis => cell_index(point.z.v, self.grid_size.v),
            Axis::YAxis => cell_index(point.z.v, self.grid_size.v),
            Axis::ZAxis => cell_index(point.y.v, self.grid_size.v),
        };
        let base_color: Color = if cells_even(d1, d2) {
            Color::black()
        } else {
            self.options.base_color
        };
        let opts = ShadingOptions {
            base_color,
            ambiant_part: self.options.ambiant_part,
            diffuse_part: self.options.diffuse_part,
            specular_part: self.options.specular_part,
            specular_coefficient: self.options.specular_coefficient,
            reflective_part: self.options.reflective_part,
            refraction_index: self.options.refraction_index,
        };
        Some((t, point, normal, opts))
    }
}

} // verus!
