//! The camera: maps a field of view, an image size and screen-space
//! sample coordinates to world-space rays.

use vstd::prelude::*;

use crate::fixed::Fx;
use crate::fixed::SCALE;
use crate::fixed::fx_div;
use crate::fixed::fx_mul;
use crate::fixed::sat64;
use crate::structs::Ray;
use crate::structs::RayV;
use crate::structs::V3;
use crate::structs::Vec3;
use crate::structs::v3_add;
use crate::structs::v3_cross;
use crate::structs::v3_normalize;
use crate::structs::v3_scale;
use crate::trig::fx_tan;

verus! {

/// The mathematical model of a camera.
pub ghost struct CamV {
    pub origin: V3,
    pub x_direction: V3,
    pub y_direction: V3,
    pub direction: V3,
}

/// The camera construction: normalize the screen basis, take the
/// forward direction as the cross product of the *unnormalized* inputs,
/// and scale the basis so the shorter image dimension's angular extent
/// is `fov` while the longer one follows from the aspect ratio.
pub open spec fn spec_camera_create(
    origin: V3,
    x_direction: V3,
    y_direction: V3,
    fov: int,
    width: int,
    height: int,
) -> CamV {
    let x_norm = v3_normalize(x_direction);
    let y_norm = v3_normalize(y_direction);
    let direction = v3_cross(x_direction, y_direction);
    let width_half = fx_div(sat64(width * (SCALE as int)), 2_000_000);
    let height_half = fx_div(sat64(height * (SCALE as int)), 2_000_000);
    let tmp = fx_tan(fx_div(fov, 2_000_000));
    let x_scale = if width > height {
        tmp
    } else {
        fx_div(fx_mul(width_half, tmp), height_half)
    };
    let y_scale = if width > height {
        fx_div(fx_mul(height_half, tmp), width_half)
    } else {
        tmp
    };
    CamV {
        origin,
        x_direction: v3_scale(x_norm, x_scale),
        y_direction: v3_scale(y_norm, y_scale),
        direction,
    }
}

/// The ray through screen-space sample coordinates `(x, y)`: the
/// forward direction plus the scaled basis offsets, not renormalized.
pub open spec fn spec_grid_ray(c: CamV, x: int, y: int) -> RayV {
    RayV {
        origin: c.origin,
        direction: v3_add(
            v3_add(c.direction, v3_scale(c.x_direction, x)),
            v3_scale(c.y_direction, y),
        ),
    }
}

/// A camera: an origin, two pre-scaled screen basis vectors, and a
/// forward direction (the cross product of the unnormalized, unscaled
/// basis inputs).
#[derive(Clone, Copy, Debug, PartialEq, Eq, Structural)]
pub struct Camera {
    pub origin: Vec3,
    pub x_direction: Vec3,
    pub y_direction: Vec3,
    pub direction: Vec3,
}

impl View for Camera {
    type V = CamV;

    open spec fn view(&self) -> CamV {
        CamV {
            origin: self.origin@,
            x_direction: self.x_direction@,
            y_direction: self.y_direction@,
            direction: self.direction@,
        }
    }
}

impl Camera {
    /// Builds a camera; see [`spec_camera_create`].
    pub fn create(
        origin: Vec3,
        x_direction: Vec3,
        y_direction: Vec3,
        fov: Fx,
        width: usize,
        height: usize,
    ) -> (r: Camera)
        ensures
            r@ == spec_camera_create(
                origin@,
                x_direction@,
                y_direction@,
                fov@,
                width as int,
                height as int,
            ),
    {
        let x_norm: Vec3 = x_direction.normalize();
        let y_norm: Vec3 = y_direction.normalize();
        let direction: Vec3 = x_direction.cross(y_direction);
        let width_half: Fx = Fx::from_usize(width).div(Fx { v: 2_000_000 });
        let height_half: Fx = Fx::from_usize(height).div(Fx { v: 2_000_000 });
        let tmp: Fx = fov.div(Fx { v: 2_000_000 }).tan();
        let x_scale: Fx = if width > height {
            tmp
        } else {
            width_half.mul(tmp).div(height_half)
        };
        let y_scale: Fx = if width > height {
            height_half.mul(tmp).div(width_half)
        } else {
            tmp
        };
        Camera {
            origin,
            x_direction: x_norm.scale(x_scale),
            y_direction: y_norm.scale(y_scale),
            direction,
        }
    }

    /// The ray through screen-space sample coordinates `(x, y)`.
    pub fn grid_ray(&self, x: Fx, y: Fx) -> (r: Ray)
        ensures
            r@ == spec_grid_ray(self@, x@, y@),
    {
        Ray {
            origin: self.origin,
            direction: self.direction.add(self.x_direction.scale(x)).add(
                self.y_direction.scale(y),
            ),
        }
    }
}

} // verus!
