//! The render loop: supersample each pixel of a rectangle, shade each
//! sample with a reflection budget of one, and write quantized RGBA
//! bytes into a caller-owned framebuffer.
//!
//! The framebuffer is row-major, four bytes per pixel; pixel `(x, y)`
//! occupies bytes `[(y * width + x) * 4, .. + 4)`. Alpha is always
//! written as 255. Channels are truncated to whole units and clamped
//! into `[0, 255]` at write-out only.

use vstd::prelude::*;

use crate::camera::CamV;
use crate::camera::Camera;
use crate::camera::spec_grid_ray;
use crate::color::C4;
use crate::color::Color;
use crate::color::c4_add;
use crate::color::c4_scale;
use crate::color::c4_zero;
use crate::fixed::Fx;
use crate::fixed::SCALE;
use crate::fixed::fx_add;
use crate::fixed::fx_div;
use crate::fixed::fx_sub;
use crate::fixed::lemma_euclid_unique;
use crate::fixed::sat64;
use crate::fixed::tdiv;
use crate::sampling::sample_count;
use crate::sampling::sample_grid;
use crate::sampling::sample_offset;
use crate::scene::Scene;
use crate::scene::SceneV;
use crate::scene::spec_shade;

verus! {

/// The color of one sample: the shade of the camera ray through the
/// pixel's normalized screen coordinates plus the jitter offset.
#[verifier::opaque]
pub open spec fn spec_sample_color(
    s: SceneV,
    cam: CamV,
    width: int,
    height: int,
    px: int,
    py: int,
    off: (int, int),
) -> C4 {
    let width_half = fx_div(sat64(width * (SCALE as int)), 2_000_000);
    let height_half = fx_div(sat64(height * (SCALE as int)), 2_000_000);
    let sample_x = fx_div(fx_sub(fx_add(off.0, sat64(px * (SCALE as int))), width_half), width_half);
    let sample_y = fx_div(
        fx_sub(fx_add(off.1, sat64(py * (SCALE as int))), height_half),
        height_half,
    );
    spec_shade(s, spec_grid_ray(cam, sample_x, sample_y), 1).color
}

/// The sum of the first `i` sample colors of a pixel.
pub open spec fn sum_samples(
    s: SceneV,
    cam: CamV,
    width: int,
    height: int,
    px: int,
    py: int,
    grid: Seq<(int, int)>,
    i: int,
) -> C4
    decreases i,
{
    if i <= 0 {
        c4_zero()
    } else {
        c4_add(
            sum_samples(s, cam, width, height, px, py, grid, i - 1),
            spec_sample_color(s, cam, width, height, px, py, grid[i - 1]),
        )
    }
}

/// The pixel's color: the sample sum scaled by `255 / sample count`.
pub open spec fn spec_pixel_color(
    s: SceneV,
    cam: CamV,
    width: int,
    height: int,
    px: int,
    py: int,
    supersampling: bool,
) -> C4 {
    let grid = sample_grid(supersampling);
    c4_scale(
        sum_samples(s, cam, width, height, px, py, grid, grid.len() as int),
        fx_div(255_000_000, sat64(grid.len() * (SCALE as int))),
    )
}

/// Quantizes a scaled channel: truncate to whole units, clamp into the
/// byte range.
pub open spec fn byte_of_channel(c: int) -> int {
    let w = tdiv(c, SCALE as int);
    if w < 0 {
        0
    } else if w > 255 {
        255
    } else {
        w
    }
}

/// The byte written for channel `ch` (0 red, 1 green, 2 blue, 3 alpha)
/// of a pixel.
pub open spec fn pixel_byte(
    s: SceneV,
    cam: CamV,
    width: int,
    height: int,
    px: int,
    py: int,
    supersampling: bool,
    ch: int,
) -> int {
    if ch == 3 {
        255
    } else {
        let c = spec_pixel_color(s, cam, width, height, px, py, supersampling);
        byte_of_channel(
            if ch == 0 {
                c.r
            } else if ch == 1 {
                c.g
            } else {
                c.b
            },
        )
    }
}

/// Whether byte index `j` belongs to a pixel with column in
/// `[start_x, end_x)` and row in `[start_y, upto_y)`, or on row
/// `upto_y` with column in `[start_x, upto_x)`.
pub open spec fn covered(
    j: int,
    width: int,
    start_x: int,
    end_x: int,
    start_y: int,
    upto_y: int,
    upto_x: int,
) -> bool {
    width > 0 && {
        let p = j / 4;
        let px = p % width;
        let py = p / width;
        (start_x <= px < end_x && start_y <= py < upto_y) || (py == upto_y && start_x <= px
            < upto_x)
    }
}

/// The byte at index `j` after rendering: the quantized pixel channel
/// inside the covered region, the previous contents elsewhere.
pub open spec fn spec_render_byte(
    prev: Seq<u8>,
    s: SceneV,
    cam: CamV,
    width: int,
    height: int,
    start_x: int,
    end_x: int,
    start_y: int,
    upto_y: int,
    upto_x: int,
    supersampling: bool,
    j: int,
) -> int {
    if covered(j, width, start_x, end_x, start_y, upto_y, upto_x) {
        pixel_byte(s, cam, width, height, (j / 4) % width, (j / 4) / width, supersampling, j % 4)
    } else {
        prev[j] as int
    }
}

/// Quantizes one channel of a color to a byte.
fn channel_byte(c: Fx) -> (b: u8)
    ensures
        b as int == byte_of_channel(c@),
{
    let w: Fx = c.div_whole(SCALE);
    if w.v < 0 {
        0
    } else if w.v > 255 {
        255
    } else {
        w.v as u8
    }
}

/// Shades one pixel and returns its four RGBA bytes.
pub fn render_pixel(
    scene: &Scene,
    camera: &Camera,
    width: usize,
    height: usize,
    px: usize,
    py: usize,
    supersampling: bool,
) -> (bytes: (u8, u8, u8, u8))
    ensures
        bytes.0 as int == pixel_byte(
            scene@,
            camera@,
            width as int,
            height as int,
            px as int,
            py as int,
            supersampling,
            0,
        ),
        bytes.1 as int == pixel_byte(
            scene@,
            camera@,
            width as int,
            height as int,
            px as int,
            py as int,
            supersampling,
            1,
        ),
        bytes.2 as int == pixel_byte(
            scene@,
            camera@,
            width as int,
            height as int,
            px as int,
            py as int,
            supersampling,
            2,
        ),
        bytes.3 == 255u8,
{
    let width_half: Fx = Fx::from_usize(width).div(Fx { v: 2_000_000 });
    let height_half: Fx = Fx::from_usize(height).div(Fx { v: 2_000_000 });
    let n: usize = sample_count(supersampling);
    let mut c: Color = Color::zero();
    let mut k: usize = 0;
    while k < n
        invariant
            k <= n,
            n == sample_grid(supersampling).len(),
            width_half@ == fx_div(sat64(width * (SCALE as int)), 2_000_000),
            height_half@ == fx_div(sat64(height * (SCALE as int)), 2_000_000),
            c@ == sum_samples(
                scene@,
                camera@,
                width as int,
                height as int,
                px as int,
                py as int,
                sample_grid(supersampling),
                k as int,
            ),
        decreases n - k,
    {
        proof {
            reveal(spec_sample_color);
        }
        let off: (Fx, Fx) = sample_offset(supersampling, k);
        let sample_x: Fx = off.0.add(Fx::from_usize(px)).sub(width_half).div(width_half);
        let sample_y: Fx = off.1.add(Fx::from_usize(py)).sub(height_half).div(height_half);
        let ray = camera.grid_ray(sample_x, sample_y);
        c = c.add(scene.shade(&ray, 1));
        k = k + 1;
    }
    let scaled: Color = c.scale(Fx { v: 255_000_000 }.div(Fx::from_usize(n)));
    (channel_byte(scaled.r), channel_byte(scaled.g), channel_byte(scaled.b), 255u8)
}

/// Renders the pixel rectangle `[start_x, end_x) x [start_y, end_y)`
/// into the framebuffer; bytes outside the rectangle keep their
/// previous contents.
#[verifier::rlimit(100)]
pub fn render_rect(
    scene: &Scene,
    camera: &Camera,
    width: usize,
    height: usize,
    start_x: usize,
    end_x: usize,
    start_y: usize,
    end_y: usize,
    supersampling: bool,
    buf: &mut Vec<u8>,
)
    requires
        end_x <= width,
        end_y * width * 4 <= old(buf).len(),
    ensures
        final(buf)@.len() == old(buf)@.len(),
        forall|j: int|
            0 <= j < old(buf)@.len() ==> #[trigger] final(buf)@[j] as int == spec_render_byte(
                old(buf)@,
                scene@,
                camera@,
                width as int,
                height as int,
                start_x as int,
                end_x as int,
                start_y as int,
                end_y as int,
                start_x as int,
                supersampling,
                j,
            ),
{
    let mut y: usize = start_y;
    while y < end_y
        invariant
            start_y <= y,
            y == start_y || y <= end_y,
            end_x <= width,
            end_y * width * 4 <= old(buf).len(),
            buf@.len() == old(buf)@.len(),
            forall|j: int|
                0 <= j < old(buf)@.len() ==> #[trigger] buf@[j] as int == spec_render_byte(
                    old(buf)@,
                    scene@,
                    camera@,
                    width as int,
                    height as int,
                    start_x as int,
                    end_x as int,
                    start_y as int,
                    y as int,
                    start_x as int,
                    supersampling,
                    j,
                ),
        decreases end_y - y,
    {
        let mut x: usize = start_x;
        while x < end_x
            invariant
                start_x <= x,
                x == start_x || x <= end_x,
                y < end_y,
                end_x <= width,
                end_y * width * 4 <= old(buf).len(),
                buf@.len() == old(buf)@.len(),
                forall|j: int|
                    0 <= j < old(buf)@.len() ==> #[trigger] buf@[j] as int == spec_render_byte(
                        old(buf)@,
                        scene@,
                        camera@,
                        width as int,
                        height as int,
                        start_x as int,
                        end_x as int,
                        start_y as int,
                        y as int,
                        x as int,
                        supersampling,
                        j,
                    ),
            decreases end_x - x,
        {
            proof {
                lemma_pixel_index(
                    width as int,
                    end_y as int,
                    x as int,
                    y as int,
                    old(buf)@.len() as int,
                );
            }
            let base: usize = (y * width + x) * 4;
            let bytes: (u8, u8, u8, u8) = render_pixel(
                scene,
                camera,
                width,
                height,
                x,
                y,
                supersampling,
            );
            buf.set(base, bytes.0);
            buf.set(base + 1, bytes.1);
            buf.set(base + 2, bytes.2);
            buf.set(base + 3, bytes.3);
            proof {
                lemma_advance_pixel(
                    old(buf)@,
                    buf@,
                    scene@,
                    camera@,
                    width as int,
                    height as int,
                    start_x as int,
                    end_x as int,
                    start_y as int,
                    y as int,
                    x as int,
                    supersampling,
                );
            }
            x = x + 1;
        }
        proof {
            assert forall|j: int| 0 <= j < old(buf)@.len() implies #[trigger] buf@[j] as int
                == spec_render_byte(
                old(buf)@,
                scene@,
                camera@,
                width as int,
                height as int,
                start_x as int,
                end_x as int,
                start_y as int,
                y as int + 1,
                start_x as int,
                supersampling,
                j,
            ) by {
                assert(covered(
                    j,
                    width as int,
                    start_x as int,
                    end_x as int,
                    start_y as int,
                    y as int,
                    x as int,
                ) == covered(
                    j,
                    width as int,
                    start_x as int,
                    end_x as int,
                    start_y as int,
                    y as int + 1,
                    start_x as int,
                ));
            }
        }
        y = y + 1;
    }
}

/// A pixel inside the rectangle owns four in-bounds bytes, and its
/// column and row can be recovered from its flat index.
proof fn lemma_pixel_index(width: int, end_y: int, x: int, y: int, len: int)
    requires
        width > 0,
        0 <= x < width,
        0 <= y < end_y,
        end_y * width * 4 <= len,
    ensures
        0 <= y * width + x,
        (y * width + x) * 4 + 3 < len,
        (y * width + x) % width == x,
        (y * width + x) / width == y,
{
    assert(0 <= y * width + x) by (nonlinear_arith)
        requires
            width > 0 && 0 <= x && 0 <= y,
    ;
    assert((y * width + x) * 4 + 3 < end_y * width * 4) by (nonlinear_arith)
        requires
            width > 0 && 0 <= x < width && 0 <= y < end_y,
    ;
    lemma_euclid_unique(y * width + x, width, y, x);
}

/// Writing one pixel's four bytes extends the covered region by one
/// column.
proof fn lemma_advance_pixel(
    prev: Seq<u8>,
    cur: Seq<u8>,
    s: SceneV,
    cam: CamV,
    width: int,
    height: int,
    start_x: int,
    end_x: int,
    start_y: int,
    y: int,
    x: int,
    supersampling: bool,
)
    requires
        width > 0,
        0 <= start_x <= x < end_x <= width,
        0 <= y,
        cur.len() == prev.len(),
        (y * width + x) * 4 + 3 < prev.len(),
        (y * width + x) % width == x,
        (y * width + x) / width == y,
        forall|j: int|
            0 <= j < prev.len() && !((y * width + x) * 4 <= j < (y * width + x) * 4 + 4)
                ==> #[trigger] cur[j] as int == spec_render_byte(
                prev,
                s,
                cam,
                width,
                height,
                start_x,
                end_x,
                start_y,
                y,
                x,
                supersampling,
                j,
            ),
        forall|ch: int|
            0 <= ch < 4 ==> #[trigger] cur[(y * width + x) * 4 + ch] as int == pixel_byte(
                s,
                cam,
                width,
                height,
                x,
                y,
                supersampling,
                ch,
            ),
    ensures
        forall|j: int|
            0 <= j < prev.len() ==> #[trigger] cur[j] as int == spec_render_byte(
                prev,
                s,
                cam,
                width,
                height,
                start_x,
                end_x,
                start_y,
                y,
                x + 1,
                supersampling,
                j,
            ),
{
    let base = (y * width + x) * 4;
    assert forall|j: int| 0 <= j < prev.len() implies #[trigger] cur[j] as int == spec_render_byte(
        prev,
        s,
        cam,
        width,
        height,
        start_x,
        end_x,
        start_y,
        y,
        x + 1,
        supersampling,
        j,
    ) by {
        if base <= j < base + 4 {
            assert(j / 4 == y * width + x) by {
                lemma_euclid_unique(j, 4, y * width + x, j - base);
            }
            assert(j % 4 == j - base) by {
                lemma_euclid_unique(j, 4, y * width + x, j - base);
            }
            assert(covered(j, width, start_x, end_x, start_y, y, x + 1));
            assert(cur[j] as int == pixel_byte(s, cam, width, height, x, y, supersampling, j - base));
        } else {
            assert(cur[j] as int == spec_render_byte(
                prev,
                s,
                cam,
                width,
                height,
                start_x,
                end_x,
                start_y,
                y,
                x,
                supersampling,
                j,
            ));
            assert(covered(j, width, start_x, end_x, start_y, y, x) == covered(
                j,
                width,
                start_x,
                end_x,
                start_y,
                y,
                x + 1,
            )) by {
                vstd::arithmetic::div_mod::lemma_fundamental_div_mod(j, 4);
                assert(j / 4 != y * width + x);
                vstd::arithmetic::div_mod::lemma_fundamental_div_mod(j / 4, width);
                if (j / 4) % width == x && (j / 4) / width == y {
                    assert(j / 4 == width * y + x);
                    assert(width * y == y * width) by (nonlinear_arith);
                    assert(false);
                }
            }
        }
    }
}

} // verus!
