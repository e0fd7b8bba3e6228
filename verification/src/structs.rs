//! 3D vectors and rays in fixed-point arithmetic.
//!
//! Each executable type has a ghost model (`V3`, `RayV`) over
//! mathematical integers, and every operation's contract states its
//! result exactly as a composition of the fixed-point spec functions.

use vstd::prelude::*;

use crate::fixed::Fx;
use crate::fixed::SCALE;
use crate::fixed::fx_add;
use crate::fixed::fx_div;
use crate::fixed::fx_mul;
use crate::fixed::fx_neg;
use crate::fixed::fx_sqrt;
use crate::fixed::fx_sub;
use crate::trig::fx_cos;
use crate::trig::fx_sin;

verus! {

/// The mathematical model of a vector: three fixed-point components.
pub ghost struct V3 {
    pub x: int,
    pub y: int,
    pub z: int,
}

/// The mathematical model of a ray.
pub ghost struct RayV {
    pub origin: V3,
    pub direction: V3,
}

/// The zero vector.
pub open spec fn v3_zero() -> V3 {
    V3 { x: 0, y: 0, z: 0 }
}

/// Componentwise sum.
pub open spec fn v3_add(a: V3, b: V3) -> V3 {
    V3 { x: fx_add(a.x, b.x), y: fx_add(a.y, b.y), z: fx_add(a.z, b.z) }
}

/// Componentwise difference.
pub open spec fn v3_sub(a: V3, b: V3) -> V3 {
    V3 { x: fx_sub(a.x, b.x), y: fx_sub(a.y, b.y), z: fx_sub(a.z, b.z) }
}

/// Componentwise negation.
pub open spec fn v3_neg(a: V3) -> V3 {
    V3 { x: fx_neg(a.x), y: fx_neg(a.y), z: fx_neg(a.z) }
}

/// Scaling by a scalar.
pub open spec fn v3_scale(a: V3, s: int) -> V3 {
    V3 { x: fx_mul(s, a.x), y: fx_mul(s, a.y), z: fx_mul(s, a.z) }
}

/// The dot product, summed left to right.
pub open spec fn v3_dot(a: V3, b: V3) -> int {
    fx_add(fx_add(fx_mul(a.x, b.x), fx_mul(a.y, b.y)), fx_mul(a.z, b.z))
}

/// The cross product.
pub open spec fn v3_cross(a: V3, b: V3) -> V3 {
    V3 {
        x: fx_sub(fx_mul(a.y, b.z), fx_mul(a.z, b.y)),
        y: fx_sub(fx_mul(a.z, b.x), fx_mul(a.x, b.z)),
        z: fx_sub(fx_mul(a.x, b.y), fx_mul(a.y, b.x)),
    }
}

/// The Euclidean norm: square root of the dot product with itself.
pub open spec fn v3_norm(a: V3) -> int {
    fx_sqrt(fx_add(fx_add(fx_mul(a.x, a.x), fx_mul(a.y, a.y)), fx_mul(a.z, a.z)))
}

/// Scaling by the reciprocal of the norm. A zero vector has norm zero,
/// so its reciprocal saturates; callers meaning a direction must pass a
/// nonzero vector.
pub open spec fn v3_normalize(a: V3) -> V3 {
    v3_scale(a, fx_div(SCALE as int, v3_norm(a)))
}

/// Construction from spherical coordinates.
pub open spec fn v3_from_spherical(radius: int, theta: int, phi: int) -> V3 {
    V3 {
        x: fx_mul(fx_mul(radius, fx_sin(theta)), fx_cos(phi)),
        y: fx_mul(fx_mul(radius, fx_sin(theta)), fx_sin(phi)),
        z: fx_mul(radius, fx_cos(theta)),
    }
}

/// One rotation stage about the x axis: the plane rotation formula on
/// the y and z components.
pub open spec fn rot_stage_x(v: V3, ang: int) -> V3 {
    V3 {
        x: v.x,
        y: fx_sub(fx_mul(v.y, fx_cos(ang)), fx_mul(v.z, fx_sin(ang))),
        z: fx_add(fx_mul(v.y, fx_sin(ang)), fx_mul(v.z, fx_cos(ang))),
    }
}

/// One rotation stage about the y axis: the plane rotation formula on
/// the x and z components.
pub open spec fn rot_stage_y(v: V3, ang: int) -> V3 {
    V3 {
        x: fx_add(fx_mul(v.x, fx_cos(ang)), fx_mul(v.z, fx_sin(ang))),
        y: v.y,
        z: fx_add(fx_mul(fx_neg(v.x), fx_sin(ang)), fx_mul(v.z, fx_cos(ang))),
    }
}

/// One rotation stage about the z axis: the plane rotation formula on
/// the x and y components.
pub open spec fn rot_stage_z(v: V3, ang: int) -> V3 {
    V3 {
        x: fx_sub(fx_mul(v.x, fx_cos(ang)), fx_mul(v.y, fx_sin(ang))),
        y: fx_add(fx_mul(v.x, fx_sin(ang)), fx_mul(v.y, fx_cos(ang))),
        z: v.z,
    }
}

/// Intrinsic rotation about the x axis, then y, then z, in that fixed
/// order; each stage applies the plane rotation formula on the two axes
/// orthogonal to the rotation axis.
pub open spec fn v3_rotate(v: V3, x_rot: int, y_rot: int, z_rot: int) -> V3 {
    rot_stage_z(rot_stage_y(rot_stage_x(v, x_rot), y_rot), z_rot)
}

/// The point a parameter `t` along a ray.
pub open spec fn ray_at(r: RayV, t: int) -> V3 {
    v3_add(r.origin, v3_scale(r.direction, t))
}

/// A 3D vector of fixed-point components.
#[derive(Clone, Copy, Debug, PartialEq, Eq, Structural)]
pub struct Vec3 {
    pub x: Fx,
    pub y: Fx,
    pub z: Fx,
}

impl View for Vec3 {
    type V = V3;

    open spec fn view(&self) -> V3 {
        V3 { x: self.x@, y: self.y@, z: self.z@ }
    }
}

/// A ray: an origin and a direction (not necessarily unit length).
#[derive(Clone, Copy, Debug, PartialEq, Eq, Structural)]
pub struct Ray {
    pub origin: Vec3,
    pub direction: Vec3,
}

impl View for Ray {
    type V = RayV;

    open spec fn view(&self) -> RayV {
        RayV { origin: self.origin@, direction: self.direction@ }
    }
}

impl Vec3 {
    /// The zero vector.
    pub fn zero() -> (r: Vec3)
        ensures
            r@ == v3_zero(),
    {
        Vec3 { x: Fx { v: 0 }, y: Fx { v: 0 }, z: Fx { v: 0 } }
    }

    /// Componentwise sum.
    pub fn add(self, other: Vec3) -> (r: Vec3)
        ensures
            r@ == v3_add(self@, other@),
    {
        Vec3 { x: self.x.add(other.x), y: self.y.add(other.y), z: self.z.add(other.z) }
    }

    /// Componentwise difference.
    pub fn sub(self, other: Vec3) -> (r: Vec3)
        ensures
            r@ == v3_sub(self@, other@),
    {
        Vec3 { x: self.x.sub(other.x), y: self.y.sub(other.y), z: self.z.sub(other.z) }
    }

    /// Componentwise negation.
    pub fn neg(self) -> (r: Vec3)
        ensures
            r@ == v3_neg(self@),
    {
        Vec3 { x: self.x.neg(), y: self.y.neg(), z: self.z.neg() }
    }

    /// Scales every component by `s`.
    pub fn scale(self, s: Fx) -> (r: Vec3)
        ensures
            r@ == v3_scale(self@, s@),
    {
        Vec3 { x: s.mul(self.x), y: s.mul(self.y), z: s.mul(self.z) }
    }

    /// The dot product.
    pub fn dot(self, other: Vec3) -> (r: Fx)
        ensures
            r@ == v3_dot(self@, other@),
    {
        self.x.mul(other.x).add(self.y.mul(other.y)).add(self.z.mul(other.z))
    }

    /// The cross product.
    pub fn cross(self, other: Vec3) -> (r: Vec3)
        ensures
            r@ == v3_cross(self@, other@),
    {
        Vec3 {
            x: self.y.mul(other.z).sub(self.z.mul(other.y)),
            y: self.z.mul(other.x).sub(self.x.mul(other.z)),
            z: self.x.mul(other.y).sub(self.y.mul(other.x)),
        }
    }

    /// The Euclidean norm.
    pub fn norm(self) -> (r: Fx)
        ensures
            r@ == v3_norm(self@),
    {
        self.x.mul(self.x).add(self.y.mul(self.y)).add(self.z.mul(self.z)).sqrt()
    }

    /// Scales to (approximately) unit length; see [`v3_normalize`] for
    /// the zero-vector convention.
    pub fn normalize(self) -> (r: Vec3)
        ensures
            r@ == v3_normalize(self@),
    {
        self.scale(Fx { v: SCALE }.div(self.norm()))
    }

    /// Construction from spherical coordinates.
    pub fn from_spherical(radius: Fx, theta: Fx, phi: Fx) -> (r: Vec3)
        ensures
            r@ == v3_from_spherical(radius@, theta@, phi@),
    {
        let st: Fx = theta.sin();
        let rs: Fx = radius.mul(st);
        Vec3 { x: rs.mul(phi.cos()), y: rs.mul(phi.sin()), z: radius.mul(theta.cos()) }
    }

    /// Rotates about the x axis, then y, then z, in that fixed order.
    pub fn rotate(self, x_rot: Fx, y_rot: Fx, z_rot: Fx) -> (r: Vec3)
        ensures
            r@ == v3_rotate(self@, x_rot@, y_rot@, z_rot@),
    {
        let cx: Fx = x_rot.cos();
        let sx: Fx = x_rot.sin();
        let a = Vec3 {
            x: self.x,
            y: self.y.mul(cx).sub(self.z.mul(sx)),
            z: self.y.mul(sx).add(self.z.mul(cx)),
        };
        let cy: Fx = y_rot.cos();
        let sy: Fx = y_rot.sin();
        let b = Vec3 { x: a.x.mul(cy).add(a.z.mul(sy)), y: a.y, z: a.x.neg().mul(sy).add(a.z.mul(cy)) };
        let cz: Fx = z_rot.cos();
        let sz: Fx = z_rot.sin();
        Vec3 { x: b.x.mul(cz).sub(b.y.mul(sz)), y: b.x.mul(sz).add(b.y.mul(cz)), z: b.z }
    }
}

impl Ray {
    /// The point a parameter `t` along the ray.
    pub fn at(&self, t: Fx) -> (r: Vec3)
        ensures
            r@ == ray_at(self@, t@),
    {
        self.origin.add(self.direction.scale(t))
    }
}

} // verus!
