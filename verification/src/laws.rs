//! Global laws of the engine, stated and proved over the model.

use vstd::prelude::*;

use crate::camera::CamV;
use crate::color::C4;
use crate::color::c4_add;
use crate::color::c4_scale;
use crate::color::c4_zero;
use crate::fixed::SCALE;
use crate::fixed::fx_add;
use crate::fixed::fx_div;
use crate::fixed::fx_mul;
use crate::fixed::lemma_euclid_unique;
use crate::fixed::sat64;
use crate::fixed::tdiv;
use crate::primitives::HitV;
use crate::render::byte_of_channel;
use crate::render::pixel_byte;
use crate::render::spec_pixel_color;
use crate::render::spec_sample_color;
use crate::render::sum_samples;
use crate::sampling::sample_grid;
use crate::scene::BIAS_RAW;
use crate::scene::LightV;
use crate::scene::SceneV;
use crate::scene::gather_lights;
use crate::scene::spec_diffuse;
use crate::scene::spec_light_visible;
use crate::scene::spec_reflected;
use crate::scene::spec_scene_intersect;
use crate::scene::spec_specular;
use crate::structs::RayV;
use crate::structs::rot_stage_x;
use crate::structs::rot_stage_y;
use crate::structs::rot_stage_z;
use crate::structs::v3_rotate;
use crate::structs::V3;
use crate::structs::v3_norm;
use crate::structs::v3_normalize;
use crate::structs::v3_scale;
use crate::structs::v3_sub;
use crate::trig::lemma_cos_zero;
use crate::trig::lemma_sin_zero;

verus! {

/// The exact (unrounded) dot product of vector models.
pub open spec fn exact_dot(a: V3, b: V3) -> int {
    a.x * b.x + a.y * b.y + a.z * b.z
}

/// The exact (unrounded) cross product of vector models.
pub open spec fn exact_cross(a: V3, b: V3) -> V3 {
    V3 {
        x: a.y * b.z - a.z * b.y,
        y: a.z * b.x - a.x * b.z,
        z: a.x * b.y - a.y * b.x,
    }
}

/// The cross product is orthogonal to both of its factors: in the
/// exact vector algebra (of which `v3_cross` and `v3_dot` are the
/// componentwise-rounded evaluations), the dot product of `a x b` with
/// either `a` or `b` is zero.
pub proof fn lemma_cross_orthogonal(a: V3, b: V3)
    ensures
        exact_dot(exact_cross(a, b), a) == 0,
        exact_dot(exact_cross(a, b), b) == 0,
{
    assert((a.y * b.z - a.z * b.y) * a.x + (a.z * b.x - a.x * b.z) * a.y + (a.x * b.y - a.y * b.x)
        * a.z == 0) by (nonlinear_arith);
    assert((a.y * b.z - a.z * b.y) * b.x + (a.z * b.x - a.x * b.z) * b.y + (a.x * b.y - a.y * b.x)
        * b.z == 0) by (nonlinear_arith);
}

/// Normalizing is the identity on vectors that are exactly unit
/// length: when a vector's fixed-point norm is exactly one, scaling by
/// the reciprocal changes nothing, so normalizing it again returns it
/// unchanged and its norm stays one. (For vectors whose norm is not
/// exactly representable the result is unit only to within rounding.)
pub proof fn lemma_normalize_unit_identity(v: V3)
    requires
        v3_norm(v) == SCALE as int,
        i64::MIN <= v.x <= i64::MAX,
        i64::MIN <= v.y <= i64::MAX,
        i64::MIN <= v.z <= i64::MAX,
    ensures
        v3_normalize(v) == v,
{
    assert(fx_div(SCALE as int, SCALE as int) == SCALE as int) by {
        lemma_euclid_unique(1_000_000_000_000, 1_000_000, 1_000_000, 0);
    }
    lemma_tdiv_multiple(v.x);
    lemma_tdiv_multiple(v.y);
    lemma_tdiv_multiple(v.z);
    assert(1_000_000 * v.x == v.x * 1_000_000) by (nonlinear_arith);
    assert(1_000_000 * v.y == v.y * 1_000_000) by (nonlinear_arith);
    assert(1_000_000 * v.z == v.z * 1_000_000) by (nonlinear_arith);
}

/// Multiplying a raw value by one whole unit is the identity: the
/// rescale divides the scale straight back out.
proof fn lemma_mul_unit(x: int)
    requires
        i64::MIN <= x <= i64::MAX,
    ensures
        fx_mul(x, SCALE as int) == x,
{
    lemma_tdiv_multiple(x);
    assert(x * 1_000_000 == 1_000_000 * x) by (nonlinear_arith);
}

/// A rotation stage through angle zero is the identity: the cosine of
/// zero is exactly one and the sine exactly zero.
pub proof fn lemma_rotate_stage_zero(v: V3)
    requires
        i64::MIN <= v.x <= i64::MAX,
        i64::MIN <= v.y <= i64::MAX,
        i64::MIN <= v.z <= i64::MAX,
    ensures
        rot_stage_x(v, 0) == v,
        rot_stage_y(v, 0) == v,
        rot_stage_z(v, 0) == v,
{
    lemma_cos_zero();
    lemma_sin_zero();
    lemma_mul_unit(v.x);
    lemma_mul_unit(v.y);
    lemma_mul_unit(v.z);
}

/// Rotating by zero angles returns the vector unchanged.
pub proof fn lemma_rotate_zero_identity(v: V3)
    requires
        i64::MIN <= v.x <= i64::MAX,
        i64::MIN <= v.y <= i64::MAX,
        i64::MIN <= v.z <= i64::MAX,
    ensures
        v3_rotate(v, 0, 0, 0) == v,
{
    lemma_rotate_stage_zero(v);
}

/// A rotation equals the composition of its three single-axis
/// rotations, applied in the fixed order x, then y, then z.
pub proof fn lemma_rotate_stagewise(v: V3, x_rot: int, y_rot: int, z_rot: int)
    requires
        i64::MIN <= v.x <= i64::MAX,
        i64::MIN <= v.y <= i64::MAX,
        i64::MIN <= v.z <= i64::MAX,
    ensures
        v3_rotate(v, x_rot, y_rot, z_rot) == v3_rotate(
            v3_rotate(v3_rotate(v, x_rot, 0, 0), 0, y_rot, 0),
            0,
            0,
            z_rot,
        ),
{
    let a = rot_stage_x(v, x_rot);
    lemma_rotate_stage_zero(a);
    assert(v3_rotate(v, x_rot, 0, 0) == a);
    let b = rot_stage_y(a, y_rot);
    lemma_rotate_stage_zero(b);
    assert(v3_rotate(a, 0, y_rot, 0) == b);
    assert(v3_rotate(b, 0, 0, z_rot) == rot_stage_z(b, z_rot));
}

/// The shadow boundary is exclusive: a shadow-ray hit whose distance
/// plus the bias reaches (or passes) the light's distance does not
/// shadow the point.
pub proof fn lemma_shadow_bias_boundary(s: SceneV, light: LightV, point: V3, h: HitV)
    requires
        spec_scene_intersect(
            s,
            RayV {
                origin: point,
                direction: v3_scale(
                    v3_sub(light.pos, point),
                    fx_div(SCALE as int, v3_norm(v3_sub(light.pos, point))),
                ),
            },
        ) == Some(h),
        fx_add(h.t, BIAS_RAW as int) >= v3_norm(v3_sub(light.pos, point)),
    ensures
        spec_light_visible(s, light, point),
{
}

/// A visible light contributes exactly its diffuse and specular terms
/// to the gathered light of a point; a shadowed one contributes
/// nothing.
pub proof fn lemma_gather_step(s: SceneV, point: V3, normal: V3, cam: V3, k: int, i: int)
    requires
        0 < i <= s.lights.len(),
    ensures
        spec_light_visible(s, s.lights[i - 1], point) ==> gather_lights(
            s,
            point,
            normal,
            cam,
            k,
            i,
        ) == (
            fx_add(
                gather_lights(s, point, normal, cam, k, i - 1).0,
                spec_diffuse(s.lights[i - 1], point, normal),
            ),
            c4_add(
                gather_lights(s, point, normal, cam, k, i - 1).1,
                c4_scale(
                    s.lights[i - 1].color,
                    spec_specular(s.lights[i - 1], point, normal, cam, k),
                ),
            ),
        ),
        !spec_light_visible(s, s.lights[i - 1], point) ==> gather_lights(
            s,
            point,
            normal,
            cam,
            k,
            i,
        ) == gather_lights(s, point, normal, cam, k, i - 1),
{
}

/// With a recursion budget of zero there is no reflected contribution,
/// whatever the surface's reflective weight: the reflected color is
/// zero, and so is its weighted share of the shade.
pub proof fn lemma_budget_zero_no_reflection(s: SceneV, ray: RayV, hit: HitV)
    ensures
        spec_reflected(s, ray, hit, 0) == c4_zero(),
        c4_scale(spec_reflected(s, ray, hit, 0), hit.opts.reflective_part) == c4_zero(),
{
    assert(tdiv(hit.opts.reflective_part * 0, SCALE as int) == 0);
}

/// A channel bound under which the supersampling law below is free of
/// saturation.
pub const FLAT_CHANNEL_BOUND: i64 = 36_000_000_000_000_000;

/// On a flat-colored region — all five jittered samples of a pixel
/// shade to the same color, with channels within
/// [`FLAT_CHANNEL_BOUND`] — the five-sample pixel equals the
/// one-sample pixel, byte for byte.
#[verifier::rlimit(100)]
pub proof fn lemma_flat_supersampling(
    s: SceneV,
    cam: CamV,
    width: int,
    height: int,
    px: int,
    py: int,
)
    requires
        forall|k: int|
            0 <= k < 5 ==> spec_sample_color(s, cam, width, height, px, py, sample_grid(true)[k])
                == spec_sample_color(s, cam, width, height, px, py, (0int, 0int)),
        ({
            let c = spec_sample_color(s, cam, width, height, px, py, (0int, 0int));
            -(FLAT_CHANNEL_BOUND as int) <= c.r <= FLAT_CHANNEL_BOUND as int
                && -(FLAT_CHANNEL_BOUND as int) <= c.g <= FLAT_CHANNEL_BOUND as int && -(
            FLAT_CHANNEL_BOUND as int) <= c.b <= FLAT_CHANNEL_BOUND as int && -(
            FLAT_CHANNEL_BOUND as int) <= c.a <= FLAT_CHANNEL_BOUND as int
        }),
    ensures
        forall|ch: int|
            0 <= ch < 4 ==> pixel_byte(s, cam, width, height, px, py, true, ch) == pixel_byte(
                s,
                cam,
                width,
                height,
                px,
                py,
                false,
                ch,
            ),
{
    let c = spec_sample_color(s, cam, width, height, px, py, (0int, 0int));
    let g5 = sample_grid(true);
    let g1 = sample_grid(false);
    reveal_with_fuel(sum_samples, 6);
    assert(sample_grid(false)[0] == (0int, 0int));
    assert(sum_samples(s, cam, width, height, px, py, g1, 1) == (C4 {
        r: c.r,
        g: c.g,
        b: c.b,
        a: c.a,
    }));
    assert(spec_sample_color(s, cam, width, height, px, py, g5[0]) == c);
    assert(spec_sample_color(s, cam, width, height, px, py, g5[1]) == c);
    assert(spec_sample_color(s, cam, width, height, px, py, g5[2]) == c);
    assert(spec_sample_color(s, cam, width, height, px, py, g5[3]) == c);
    assert(spec_sample_color(s, cam, width, height, px, py, g5[4]) == c);
    assert(sum_samples(s, cam, width, height, px, py, g5, 5) == (C4 {
        r: 5 * c.r,
        g: 5 * c.g,
        b: 5 * c.b,
        a: 5 * c.a,
    }));
    assert(fx_div(255_000_000, sat64(5 * (SCALE as int))) == 51_000_000) by {
        lemma_euclid_unique(255_000_000_000_000, 5_000_000, 51_000_000, 0);
    }
    assert(fx_div(255_000_000, sat64(1 * (SCALE as int))) == 255_000_000) by {
        lemma_euclid_unique(255_000_000_000_000, 1_000_000, 255_000_000, 0);
    }
    lemma_scale_flat(c.r);
    lemma_scale_flat(c.g);
    lemma_scale_flat(c.b);
    lemma_scale_flat(c.a);
    assert(spec_pixel_color(s, cam, width, height, px, py, true) == spec_pixel_color(
        s,
        cam,
        width,
        height,
        px,
        py,
        false,
    ));
}

/// Across an edge, the five-sample average stays between the two
/// underlying surface colors: when every sample of a pixel shades to
/// one of two colors `c1 <= c2` (channelwise, within
/// [`FLAT_CHANNEL_BOUND`]), each channel byte of the five-sample pixel
/// lies between the quantizations of the two colors — `255 * c` is the
/// channel a pixel wholly covered by `c` quantizes. Quantization may
/// collapse the difference, so the two pixels differing is a matter of
/// the concrete scene, not a law.
#[verifier::rlimit(100)]
pub proof fn lemma_edge_supersampling_between(
    s: SceneV,
    cam: CamV,
    width: int,
    height: int,
    px: int,
    py: int,
    c1: C4,
    c2: C4,
)
    requires
        forall|k: int|
            0 <= k < 5 ==> spec_sample_color(s, cam, width, height, px, py, sample_grid(true)[k])
                == c1 || spec_sample_color(s, cam, width, height, px, py, sample_grid(true)[k])
                == c2,
        c1.r <= c2.r && c1.g <= c2.g && c1.b <= c2.b,
        -(FLAT_CHANNEL_BOUND as int) <= c1.r && c2.r <= FLAT_CHANNEL_BOUND as int,
        -(FLAT_CHANNEL_BOUND as int) <= c1.g && c2.g <= FLAT_CHANNEL_BOUND as int,
        -(FLAT_CHANNEL_BOUND as int) <= c1.b && c2.b <= FLAT_CHANNEL_BOUND as int,
    ensures
        byte_of_channel(255 * c1.r) <= pixel_byte(s, cam, width, height, px, py, true, 0)
            <= byte_of_channel(255 * c2.r),
        byte_of_channel(255 * c1.g) <= pixel_byte(s, cam, width, height, px, py, true, 1)
            <= byte_of_channel(255 * c2.g),
        byte_of_channel(255 * c1.b) <= pixel_byte(s, cam, width, height, px, py, true, 2)
            <= byte_of_channel(255 * c2.b),
{
    let g5 = sample_grid(true);
    reveal_with_fuel(sum_samples, 6);
    let x0 = spec_sample_color(s, cam, width, height, px, py, g5[0]);
    let x1 = spec_sample_color(s, cam, width, height, px, py, g5[1]);
    let x2 = spec_sample_color(s, cam, width, height, px, py, g5[2]);
    let x3 = spec_sample_color(s, cam, width, height, px, py, g5[3]);
    let x4 = spec_sample_color(s, cam, width, height, px, py, g5[4]);
    assert(x0 == c1 || x0 == c2);
    assert(x1 == c1 || x1 == c2);
    assert(x2 == c1 || x2 == c2);
    assert(x3 == c1 || x3 == c2);
    assert(x4 == c1 || x4 == c2);
    let t5 = sum_samples(s, cam, width, height, px, py, g5, 5);
    assert(5 * c1.r <= t5.r <= 5 * c2.r && 5 * c1.g <= t5.g <= 5 * c2.g && 5 * c1.b <= t5.b <= 5
        * c2.b);
    assert(fx_div(255_000_000, sat64(5 * (SCALE as int))) == 51_000_000) by {
        lemma_euclid_unique(255_000_000_000_000, 5_000_000, 51_000_000, 0);
    }
    lemma_channel_between(c1.r, c2.r, t5.r);
    lemma_channel_between(c1.g, c2.g, t5.g);
    lemma_channel_between(c1.b, c2.b, t5.b);
}

/// The five-sample channel sum, scaled by `255 / 5`, quantizes between
/// the quantizations of its two channel bounds.
proof fn lemma_channel_between(lo: int, hi: int, sum: int)
    requires
        -(FLAT_CHANNEL_BOUND as int) <= lo <= hi <= FLAT_CHANNEL_BOUND as int,
        5 * lo <= sum <= 5 * hi,
    ensures
        byte_of_channel(255 * lo) <= byte_of_channel(fx_mul(51_000_000, sum)) <= byte_of_channel(
            255 * hi,
        ),
{
    assert(51_000_000 * sum == 1_000_000 * (51 * sum)) by (nonlinear_arith);
    lemma_tdiv_multiple(51 * sum);
    assert(fx_mul(51_000_000, sum) == 51 * sum);
    lemma_byte_monotone(255 * lo, 51 * sum);
    lemma_byte_monotone(51 * sum, 255 * hi);
}

/// Quantization never reorders channels: a larger channel value gives
/// at least as large a byte.
proof fn lemma_byte_monotone(n1: int, n2: int)
    requires
        n1 <= n2,
    ensures
        byte_of_channel(n1) <= byte_of_channel(n2),
{
    lemma_tdiv_monotone(n1, n2, SCALE as int);
}

/// Division truncating toward zero is monotone in the dividend, for a
/// positive divisor.
proof fn lemma_tdiv_monotone(n1: int, n2: int, d: int)
    requires
        n1 <= n2,
        d > 0,
    ensures
        tdiv(n1, d) <= tdiv(n2, d),
{
    if n1 >= 0 {
        vstd::arithmetic::div_mod::lemma_div_is_ordered(n1, n2, d);
    } else if n2 < 0 {
        vstd::arithmetic::div_mod::lemma_div_is_ordered(-n2, -n1, d);
    } else {
        vstd::arithmetic::div_mod::lemma_div_pos_is_pos(-n1, d);
        vstd::arithmetic::div_mod::lemma_div_pos_is_pos(n2, d);
    }
}

/// Scaling five equal samples by `255 / 5` gives the same channel as
/// scaling one by `255`, absent saturation.
proof fn lemma_scale_flat(x: int)
    requires
        -(FLAT_CHANNEL_BOUND as int) <= x <= FLAT_CHANNEL_BOUND as int,
    ensures
        crate::fixed::fx_mul(51_000_000, 5 * x) == 255 * x,
        crate::fixed::fx_mul(255_000_000, x) == 255 * x,
{
    assert(51_000_000 * (5 * x) == 1_000_000 * (255 * x)) by (nonlinear_arith);
    assert(255_000_000 * x == 1_000_000 * (255 * x)) by (nonlinear_arith);
    lemma_tdiv_multiple(255 * x);
}

/// Truncating division by the scale undoes multiplication by it.
proof fn lemma_tdiv_multiple(x: int)
    ensures
        tdiv(1_000_000 * x, 1_000_000) == x,
{
    if x >= 0 {
        assert((1_000_000 * x) / 1_000_000 == x) by (nonlinear_arith)
            requires
                x >= 0,
        ;
    } else {
        assert(1_000_000 * x < 0) by (nonlinear_arith)
            requires
                x < 0,
        ;
        assert(-(1_000_000 * x) == 1_000_000 * (-x)) by (nonlinear_arith);
        assert((1_000_000 * (-x)) / 1_000_000 == -x) by (nonlinear_arith)
            requires
                x < 0,
        ;
    }
}

} // verus!
