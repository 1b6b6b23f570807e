//! Images as plain values, and the two thumbnail transforms: square-pad onto
//! an opaque black canvas with alpha-over blending, and the fixed logo-crop,
//! clamped to the image bounds.

use vstd::prelude::*;
use vstd::arithmetic::div_mod::lemma_fundamental_div_mod_converse;

verus! {

/// Horizontal start of the fixed logo-crop rectangle.
pub const LOGO_CROP_X: u32 = 33;

/// Vertical start of the fixed logo-crop rectangle.
pub const LOGO_CROP_Y: u32 = 0;

/// Requested width of the fixed logo-crop rectangle.
pub const LOGO_CROP_W: u32 = 201;

/// Requested height of the fixed logo-crop rectangle.
pub const LOGO_CROP_H: u32 = 234;

/// An RGBA image held as plain values: `data` is row-major, four bytes per
/// pixel, in the order red, green, blue, alpha.
pub struct Raster {
    pub width: u32,
    pub height: u32,
    pub data: Vec<u8>,
}

/// Position of channel `c` of the pixel at column `x`, row `y` in a
/// row-major RGBA buffer of width `w`.
pub open spec fn flat_index(w: int, x: int, y: int, c: int) -> int {
    4 * (y * w + x) + c
}

/// Column of the pixel that buffer position `i` belongs to.
pub open spec fn col_of(w: int, i: int) -> int {
    (i / 4) % w
}

/// Row of the pixel that buffer position `i` belongs to.
pub open spec fn row_of(w: int, i: int) -> int {
    (i / 4) / w
}

/// Channel that buffer position `i` belongs to.
pub open spec fn chan_of(i: int) -> int {
    i % 4
}

impl Raster {
    /// The buffer holds exactly four bytes per pixel.
    pub open spec fn wf(&self) -> bool {
        self.data.len() == 4 * ((self.width as int) * (self.height as int))
    }

    /// Channel `c` of the pixel at column `x`, row `y`.
    pub open spec fn chan(&self, x: int, y: int, c: int) -> u8 {
        self.data[flat_index(self.width as int, x, y, c)]
    }
}

/// A buffer position decomposes into the column, row and channel it was
/// built from.
pub proof fn lemma_flat_index(w: int, x: int, y: int, c: int)
    requires
        0 < w,
        0 <= x < w,
        0 <= y,
        0 <= c < 4,
    ensures
        col_of(w, flat_index(w, x, y, c)) == x,
        row_of(w, flat_index(w, x, y, c)) == y,
        chan_of(flat_index(w, x, y, c)) == c,
{
    let p = y * w + x;
    assert(y * w + x >= 0) by (nonlinear_arith)
        requires 0 <= x, 0 <= y, 0 < w;
    lemma_fundamental_div_mod_converse(4 * p + c, 4, p, c);
    lemma_fundamental_div_mod_converse(p, w, y, x);
}

/// Every in-bounds channel position lies inside the buffer.
pub proof fn lemma_flat_index_bound(w: int, h: int, x: int, y: int, c: int)
    requires
        0 <= x < w,
        0 <= y < h,
        0 <= c < 4,
    ensures
        0 <= flat_index(w, x, y, c),
        flat_index(w, x, y, c) < 4 * (w * h),
{
    assert(0 <= y * w + x && y * w + x < w * h) by (nonlinear_arith)
        requires 0 <= x < w, 0 <= y < h;
}

/// Side length of the square canvas: the larger of the two dimensions.
pub open spec fn side_of(w: int, h: int) -> int {
    if w >= h {
        w
    } else {
        h
    }
}

/// The square canvas buffer fits in memory.
pub open spec fn pad_fits(w: int, h: int) -> bool {
    4 * (side_of(w, h) * side_of(w, h)) <= usize::MAX
}

/// Alpha-over compositing of one color channel onto the opaque black
/// canvas: the channel is scaled by the source pixel's alpha. The floor
/// division is this library's chosen rounding; semi-transparent channels
/// may sit one below a round-to-nearest compositor's result.
pub open spec fn over_black(chan: u8, alpha: u8) -> u8 {
    ((chan * alpha) / 255) as u8
}

/// Channel `c` of the padded image at `(x, y)`: inside the centered
/// rectangle, the source pixel composited over opaque black; outside it,
/// opaque black itself. The alpha channel is always fully opaque.
pub open spec fn pad_chan(w: int, h: int, d: Seq<u8>, x: int, y: int, c: int) -> u8 {
    let s = side_of(w, h);
    let ox = (s - w) / 2;
    let oy = (s - h) / 2;
    if ox <= x < ox + w && oy <= y < oy + h {
        if c == 3 {
            255u8
        } else {
            over_black(d[flat_index(w, x - ox, y - oy, c)], d[flat_index(w, x - ox, y - oy, 3)])
        }
    } else {
        if c == 3 {
            255u8
        } else {
            0u8
        }
    }
}

/// The whole padded buffer, row-major.
pub open spec fn pad_flat(w: int, h: int, d: Seq<u8>) -> Seq<u8> {
    let s = side_of(w, h);
    Seq::new(
        (4 * (s * s)) as nat,
        |i: int| pad_chan(w, h, d, col_of(s, i), row_of(s, i), chan_of(i)),
    )
}

/// Width of the clamped crop along one dimension: the requested extent,
/// cut down to what lies inside the image.
pub open spec fn clamp_len(dim: int, start: int, want: int) -> int {
    if start >= dim {
        0
    } else if start + want <= dim {
        want
    } else {
        dim - start
    }
}

/// The whole cropped buffer, row-major: pixel `(x, y)` of the output is
/// pixel `(x0 + x, y0 + y)` of the input.
pub open spec fn crop_flat(w: int, h: int, d: Seq<u8>, x0: int, y0: int, cw: int, ch: int) -> Seq<
    u8,
> {
    let ow = clamp_len(w, x0, cw);
    let oh = clamp_len(h, y0, ch);
    Seq::new(
        (4 * (ow * oh)) as nat,
        |i: int| d[flat_index(w, x0 + col_of(ow, i), y0 + row_of(ow, i), chan_of(i))],
    )
}

/// One color channel scaled by an alpha value: alpha-over onto opaque
/// black.
fn scale_over_black(chan: u8, alpha: u8) -> (r: u8)
    ensures
        r == over_black(chan, alpha),
{
    proof {
        assert((chan as int) * (alpha as int) <= 255 * 255) by (nonlinear_arith)
            requires chan <= 255, alpha <= 255;
    }
    let p: u32 = (chan as u32) * (alpha as u32);
    (p / 255) as u8
}

/// Append one RGBA pixel to a buffer under construction.
fn push_pixel(data: &mut Vec<u8>, r: u8, g: u8, b: u8, a: u8)
    ensures
        final(data)@ == old(data)@.push(r).push(g).push(b).push(a),
{
    data.push(r);
    data.push(g);
    data.push(b);
    data.push(a);
}

/// Square-pad transform: an opaque black canvas whose side is the larger
/// input dimension, with the input composited onto its center by alpha-over
/// blending. Offsets use floor division. For an input with equal sides the
/// output is the input itself composited over opaque black, pixel for pixel.
pub fn pad_to_square(img: &Raster) -> (out: Raster)
    requires
        img.wf(),
        pad_fits(img.width as int, img.height as int),
    ensures
        out.wf(),
        out.width as int == side_of(img.width as int, img.height as int),
        out.height as int == side_of(img.width as int, img.height as int),
        out.data@ == pad_flat(img.width as int, img.height as int, img.data@),
        forall|x: int, y: int, c: int|
            0 <= x < out.width && 0 <= y < out.height && 0 <= c < 4 ==> #[trigger] out.chan(
                x,
                y,
                c,
            ) == pad_chan(img.width as int, img.height as int, img.data@, x, y, c),
{
    let w = img.width;
    let h = img.height;
    let s: u32 = if w >= h {
        w
    } else {
        h
    };
    let ox: u32 = (s - w) / 2;
    let oy: u32 = (s - h) / 2;
    let ghost wi = w as int;
    let ghost hi = h as int;
    let ghost si = s as int;
    let ghost flat = pad_flat(wi, hi, img.data@);
    let mut data: Vec<u8> = Vec::new();
    let mut y: u32 = 0;
    while y < s
        invariant
            img.wf(),
            wi == img.width as int,
            hi == img.height as int,
            si == side_of(wi, hi),
            s == si,
            w == wi,
            h == hi,
            ox as int == (si - wi) / 2,
            oy as int == (si - hi) / 2,
            4 * (si * si) <= usize::MAX,
            flat == pad_flat(wi, hi, img.data@),
            0 <= y <= s,
            data.len() == 4 * ((y as int) * si),
            forall|i: int| 0 <= i < data.len() ==> data@[i] == flat[i],
        decreases s - y,
    {
        let mut x: u32 = 0;
        proof {
            assert(4 * ((y as int) * si + si) <= 4 * (si * si)) by (nonlinear_arith)
                requires 0 <= (y as int), (y as int) < si;
        }
        while x < s
            invariant
                img.wf(),
                wi == img.width as int,
                hi == img.height as int,
                si == side_of(wi, hi),
                s == si,
                w == wi,
                h == hi,
                ox as int == (si - wi) / 2,
                oy as int == (si - hi) / 2,
                4 * (si * si) <= usize::MAX,
                4 * ((y as int) * si + si) <= 4 * (si * si),
                flat == pad_flat(wi, hi, img.data@),
                0 <= y < s,
                0 <= x <= s,
                data.len() == 4 * ((y as int) * si + x as int),
                forall|i: int| 0 <= i < data.len() ==> data@[i] == flat[i],
            decreases s - x,
        {
            let ghost n0 = data.len() as int;
            let inside = (x as u64) >= (ox as u64) && (x as u64) < (ox as u64) + (w as u64) && (y
                as u64) >= (oy as u64) && (y as u64) < (oy as u64) + (h as u64);
            if inside {
                let sx = x - ox;
                let sy = y - oy;
                proof {
                    assert((sy as int) * wi + (sx as int) < wi * hi && 0 <= (sy as int) * wi + (sx
                        as int)) by (nonlinear_arith)
                        requires 0 <= (sx as int), (sx as int) < wi, 0 <= (sy as int), (sy as int) < hi;
                }
                let base: usize = 4 * ((sy as usize) * (w as usize) + (sx as usize));
                let alpha = img.data[base + 3];
                let pr = scale_over_black(img.data[base], alpha);
                let pg = scale_over_black(img.data[base + 1], alpha);
                let pb = scale_over_black(img.data[base + 2], alpha);
                push_pixel(&mut data, pr, pg, pb, 255);
            } else {
                push_pixel(&mut data, 0, 0, 0, 255);
            }
            proof {
                lemma_flat_index(si, x as int, y as int, 0);
                lemma_flat_index(si, x as int, y as int, 1);
                lemma_flat_index(si, x as int, y as int, 2);
                lemma_flat_index(si, x as int, y as int, 3);
                assert(data@[n0 + 0] == flat[n0 + 0]);
                assert(data@[n0 + 1] == flat[n0 + 1]);
                assert(data@[n0 + 2] == flat[n0 + 2]);
                assert(data@[n0 + 3] == flat[n0 + 3]);
            }
            x = x + 1;
        }
        proof {
            assert(((y as int) + 1) * si == (y as int) * si + si) by (nonlinear_arith);
        }
        y = y + 1;
    }
    let out = Raster { width: s, height: s, data };
    proof {
        assert(out.data@ =~= flat);
        assert forall|x: int, y: int, c: int|
            0 <= x < out.width && 0 <= y < out.height && 0 <= c < 4 implies #[trigger] out.chan(
            x,
            y,
            c,
        ) == pad_chan(wi, hi, img.data@, x, y, c) by {
            lemma_flat_index(si, x, y, c);
            lemma_flat_index_bound(si, si, x, y, c);
        }
    }
    out
}

/// Crop a rectangle out of an image, clamped to the image bounds: pixel
/// `(x, y)` of the output is pixel `(x0 + x, y0 + y)` of the input.
pub fn crop_rect(img: &Raster, x0: u32, y0: u32, cw: u32, ch: u32) -> (out: Raster)
    requires
        img.wf(),
    ensures
        out.wf(),
        out.width as int == clamp_len(img.width as int, x0 as int, cw as int),
        out.height as int == clamp_len(img.height as int, y0 as int, ch as int),
        out.data@ == crop_flat(
            img.width as int,
            img.height as int,
            img.data@,
            x0 as int,
            y0 as int,
            cw as int,
            ch as int,
        ),
        forall|x: int, y: int, c: int|
            0 <= x < out.width && 0 <= y < out.height && 0 <= c < 4 ==> #[trigger] out.chan(
                x,
                y,
                c,
            ) == img.chan(x0 + x, y0 + y, c),
{
    let w = img.width;
    let h = img.height;
    let ow: u32 = if x0 >= w {
        0
    } else if (x0 as u64) + (cw as u64) <= (w as u64) {
        cw
    } else {
        w - x0
    };
    let oh: u32 = if y0 >= h {
        0
    } else if (y0 as u64) + (ch as u64) <= (h as u64) {
        ch
    } else {
        h - y0
    };
    let ghost wi = w as int;
    let ghost hi = h as int;
    let ghost owi = ow as int;
    let ghost ohi = oh as int;
    let ghost flat = crop_flat(wi, hi, img.data@, x0 as int, y0 as int, cw as int, ch as int);
    let mut data: Vec<u8> = Vec::new();
    let mut y: u32 = 0;
    while y < oh
        invariant
            img.wf(),
            wi == img.width as int,
            hi == img.height as int,
            w == wi,
            h == hi,
            owi == clamp_len(wi, x0 as int, cw as int),
            ohi == clamp_len(hi, y0 as int, ch as int),
            ow == owi,
            oh == ohi,
            x0 as int + owi <= wi || owi == 0,
            y0 as int + ohi <= hi || ohi == 0,
            flat == crop_flat(wi, hi, img.data@, x0 as int, y0 as int, cw as int, ch as int),
            0 <= y <= oh,
            data.len() == 4 * ((y as int) * owi),
            forall|i: int| 0 <= i < data.len() ==> data@[i] == flat[i],
        decreases oh - y,
    {
        let mut x: u32 = 0;
        while x < ow
            invariant
                img.wf(),
                wi == img.width as int,
                hi == img.height as int,
                w == wi,
                h == hi,
                owi == clamp_len(wi, x0 as int, cw as int),
                ohi == clamp_len(hi, y0 as int, ch as int),
                ow == owi,
                oh == ohi,
                x0 as int + owi <= wi || owi == 0,
                y0 as int + ohi <= hi || ohi == 0,
                flat == crop_flat(wi, hi, img.data@, x0 as int, y0 as int, cw as int, ch as int),
                0 <= y < oh,
                0 <= x <= ow,
                data.len() == 4 * ((y as int) * owi + x as int),
                forall|i: int| 0 <= i < data.len() ==> data@[i] == flat[i],
            decreases ow - x,
        {
            let ghost n0 = data.len() as int;
            let sx = x0 + x;
            let sy = y0 + y;
            proof {
                assert((sy as int) * wi + (sx as int) < wi * hi && 0 <= (sy as int) * wi + (sx
                    as int)) by (nonlinear_arith)
                    requires 0 <= (sx as int), (sx as int) < wi, 0 <= (sy as int), (sy as int) < hi;
                assert(4 * ((y as int) * owi + x as int) + 4 <= 4 * (owi * ohi)) by (
                nonlinear_arith)
                    requires 0 <= (x as int), (x as int) < owi, 0 <= (y as int), (y as int) < ohi;
            }
            let base: usize = 4 * ((sy as usize) * (w as usize) + (sx as usize));
            push_pixel(
                &mut data,
                img.data[base],
                img.data[base + 1],
                img.data[base + 2],
                img.data[base + 3],
            );
            proof {
                lemma_flat_index(owi, x as int, y as int, 0);
                lemma_flat_index(owi, x as int, y as int, 1);
                lemma_flat_index(owi, x as int, y as int, 2);
                lemma_flat_index(owi, x as int, y as int, 3);
                assert(data@[n0 + 0] == flat[n0 + 0]);
                assert(data@[n0 + 1] == flat[n0 + 1]);
                assert(data@[n0 + 2] == flat[n0 + 2]);
                assert(data@[n0 + 3] == flat[n0 + 3]);
            }
            x = x + 1;
        }
        proof {
            assert(((y as int) + 1) * owi == (y as int) * owi + owi) by (nonlinear_arith);
        }
        y = y + 1;
    }
    let out = Raster { width: ow, height: oh, data };
    proof {
        assert(ohi * owi == owi * ohi) by (nonlinear_arith);
        assert(out.data@ =~= flat);
        assert forall|x: int, y: int, c: int|
            0 <= x < out.width && 0 <= y < out.height && 0 <= c < 4 implies #[trigger] out.chan(
            x,
            y,
            c,
        ) == img.chan(x0 + x, y0 + y, c) by {
            lemma_flat_index(owi, x, y, c);
            lemma_flat_index_bound(owi, ohi, x, y, c);
        }
    }
    out
}

/// Logo-crop transform: the fixed rectangle starting at (33, 0) with
/// fixed size 201 x 234 (bottom-right at (234, 234)), clamped to the image
/// bounds. For the one thumbnail size it is tuned to, 234 x 234, the result is exactly
/// 201 x 234, and pixel (0, 0) of the output is pixel (33, 0) of the input.
pub fn logo_crop(img: &Raster) -> (out: Raster)
    requires
        img.wf(),
    ensures
        out.wf(),
        out.width as int == clamp_len(img.width as int, LOGO_CROP_X as int, LOGO_CROP_W as int),
        out.height as int == clamp_len(img.height as int, LOGO_CROP_Y as int, LOGO_CROP_H as int),
        out.data@ == crop_flat(
            img.width as int,
            img.height as int,
            img.data@,
            LOGO_CROP_X as int,
            LOGO_CROP_Y as int,
            LOGO_CROP_W as int,
            LOGO_CROP_H as int,
        ),
        forall|x: int, y: int, c: int|
            0 <= x < out.width && 0 <= y < out.height && 0 <= c < 4 ==> #[trigger] out.chan(
                x,
                y,
                c,
            ) == img.chan(LOGO_CROP_X + x, LOGO_CROP_Y + y, c),
        img.width == 234 && img.height == 234 ==> out.width == 201 && out.height == 234,
{
    crop_rect(img, LOGO_CROP_X, LOGO_CROP_Y, LOGO_CROP_W, LOGO_CROP_H)
}

/// Square-pad law for inputs with equal sides: the canvas has the same
/// size, and every output pixel is the input pixel composited over opaque
/// black — fully opaque, with each color channel scaled by the input's
/// alpha.
pub proof fn lemma_pad_equal_sides(w: int, h: int, d: Seq<u8>, x: int, y: int, c: int)
    requires
        w == h,
        0 <= x < w,
        0 <= y < h,
        0 <= c < 4,
    ensures
        side_of(w, h) == w,
        pad_chan(w, h, d, x, y, c) == if c == 3 {
            255u8
        } else {
            over_black(d[flat_index(w, x, y, c)], d[flat_index(w, x, y, 3)])
        },
{
}

} // verus!
