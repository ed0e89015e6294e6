//! Decoding of device-independent bitmaps into display-ready previews.
//!
//! A payload starts with a 40-byte header that holds, as little-endian 32-bit
//! numbers, the width at offset 4 and the height at offset 8. The pixel rows
//! follow, bottom row first, four bytes per pixel in the order blue, green,
//! red, alpha. A preview holds the same picture top row first, in the order
//! red, green, blue, alpha, scaled down where a side exceeds 150 pixels.

use crate::errors::DecodeFault;
use image::imageops::{resize, FilterType};
use image::{ImageBuffer, Rgba};
use vstd::prelude::*;

verus! {

/// Length of the bitmap header in bytes.
pub const HEADER_LEN: usize = 40;

/// The longest side that a preview may have, in pixels.
pub const MAX_SIDE: u32 = 150;

/// The little-endian 32-bit number that starts at offset `at`.
pub open spec fn le_u32(raw: Seq<u8>, at: int) -> nat {
    (raw[at] as nat) + 256 * (raw[at + 1] as nat) + 65536 * (raw[at + 2] as nat) + 16777216 * (
    raw[at + 3] as nat)
}

/// Width in pixels that the header declares.
pub open spec fn bitmap_width(raw: Seq<u8>) -> nat {
    le_u32(raw, 4)
}

/// Height in pixels that the header declares.
pub open spec fn bitmap_height(raw: Seq<u8>) -> nat {
    le_u32(raw, 8)
}

/// Bytes from the start of one pixel row to the start of the next. A pixel
/// takes four bytes, so a row already ends on a four-byte boundary.
pub open spec fn row_stride(width: nat) -> nat {
    4 * width
}

/// Bytes that a payload must hold to be decoded: the header and every row.
pub open spec fn required_len(raw: Seq<u8>) -> nat {
    40 + bitmap_height(raw) * row_stride(bitmap_width(raw))
}

/// The fault that decoding `raw` ends in, if any.
pub open spec fn decode_fault(raw: Seq<u8>) -> Option<DecodeFault> {
    if raw.len() < 40 {
        Some(DecodeFault::TruncatedHeader)
    } else if raw.len() < required_len(raw) {
        Some(DecodeFault::TruncatedPixels)
    } else {
        None
    }
}

/// Position in the payload of the pixel in column `x` of row `y`, rows
/// counted from the top of the picture.
pub open spec fn source_offset(width: nat, height: nat, x: int, y: int) -> int {
    40 + (height - 1 - y) * row_stride(width) + 4 * x
}

/// Which byte of a stored pixel supplies channel `c` of a preview pixel:
/// red and blue change places, green and alpha stay.
pub open spec fn channel_source(c: int) -> int {
    if c == 0 {
        2
    } else if c == 2 {
        0
    } else {
        c
    }
}

/// Position in a preview buffer of channel `c` of the pixel in column `x` of
/// row `y`.
pub open spec fn pixel_index(width: nat, x: int, y: int, c: int) -> int {
    4 * (y * width + x) + c
}

/// `pixels` is the picture stored in `raw` at its own size: rows top first,
/// channels in the order red, green, blue, alpha.
pub open spec fn is_native_image(raw: Seq<u8>, pixels: Seq<u8>) -> bool {
    let w = bitmap_width(raw);
    let h = bitmap_height(raw);
    &&& pixels.len() == 4 * w * h
    &&& forall|x: int, y: int, c: int|
        0 <= x < w && 0 <= y < h && 0 <= c < 4 ==> #[trigger] pixels[pixel_index(w, x, y, c)]
            == raw[source_offset(w, h, x, y) + channel_source(c)]
}

/// A payload has one native image: every position of the buffer belongs
/// to exactly one channel of one pixel.
pub proof fn lemma_native_image_is_unique(raw: Seq<u8>, a: Seq<u8>, b: Seq<u8>)
    requires
        is_native_image(raw, a),
        is_native_image(raw, b),
    ensures
        a == b,
{
    let w = bitmap_width(raw);
    let h = bitmap_height(raw);
    assert forall|i: int| 0 <= i < a.len() implies a[i] == b[i] by {
        assert(w > 0) by (nonlinear_arith)
            requires
                0 <= i < 4 * w * h,
        ;
        let c = i % 4;
        let p = i / 4;
        let x = p % (w as int);
        let y = p / (w as int);
        assert(0 <= x < w && 0 <= y < h && p == y * w + x) by (nonlinear_arith)
            requires
                w > 0,
                0 <= p,
                4 * p <= i,
                i < 4 * w * h,
                x == p % (w as int),
                y == p / (w as int),
        ;
        assert(pixel_index(w, x, y, c) == i);
        assert(a[pixel_index(w, x, y, c)] == b[pixel_index(w, x, y, c)]);
    }
    assert(a =~= b);
}

/// Reads the little-endian 32-bit number at offset `at`.
fn read_le_u32(raw: &Vec<u8>, at: usize) -> (n: u32)
    requires
        at + 4 <= raw.len(),
    ensures
        n == le_u32(raw@, at as int),
{
    let b0: u32 = raw[at] as u32;
    let b1: u32 = raw[at + 1] as u32;
    let b2: u32 = raw[at + 2] as u32;
    let b3: u32 = raw[at + 3] as u32;
    b0 + 256 * b1 + 65536 * b2 + 16777216 * b3
}

/// The width and height that the header of `raw` declares, provided that
/// `raw` holds the whole header and all the rows that it declares.
pub fn bitmap_size(raw: &Vec<u8>) -> (r: Result<(u32, u32), DecodeFault>)
    ensures
        match r {
            Ok((w, h)) => decode_fault(raw@) is None && w == bitmap_width(raw@) && h
                == bitmap_height(raw@),
            Err(fault) => decode_fault(raw@) == Some(fault),
        },
{
    if raw.len() < HEADER_LEN {
        return Err(DecodeFault::TruncatedHeader);
    }
    let w: u32 = read_le_u32(raw, 4);
    let h: u32 = read_le_u32(raw, 8);
    assert((h as int) * (4 * (w as int)) <= 0xffff_ffff * 0x3_ffff_fffc) by (nonlinear_arith)
        requires
            0 <= h <= 0xffff_ffff,
            0 <= w <= 0xffff_ffff,
    ;
    let needed: u128 = (h as u128) * (4 * (w as u128));
    let have: u128 = (raw.len() - HEADER_LEN) as u128;
    if have < needed {
        return Err(DecodeFault::TruncatedPixels);
    }
    Ok((w, h))
}

/// Rows `0..rows` of the picture, of which the last holds only its first
/// `cols` pixels, stand in `pixels` as they do in a native image.
spec fn filled_to(raw: Seq<u8>, pixels: Seq<u8>, rows: int, cols: int) -> bool {
    let w = bitmap_width(raw);
    let h = bitmap_height(raw);
    forall|x: int, y: int, c: int|
        0 <= x < w && 0 <= y < h && 0 <= c < 4 && (y < rows || (y == rows && x < cols))
            ==> #[trigger] pixels[pixel_index(w, x, y, c)] == raw[source_offset(w, h, x, y)
            + channel_source(c)]
}

/// The pixels before column `x` of row `y` take the buffer positions below
/// that of the pixel at (`x`, `y`).
proof fn lemma_earlier_pixels_lie_below(w: nat, x: int, y: int, px: int, py: int, c: int)
    requires
        0 <= px < w,
        0 <= x <= w,
        0 <= py,
        0 <= c < 4,
        py < y || (py == y && px < x),
    ensures
        0 <= pixel_index(w, px, py, c) < 4 * (y * w + x),
{
    assert(py * w + px < y * w + x && 0 <= py * w) by (nonlinear_arith)
        requires
            0 <= px < w,
            0 <= x <= w,
            0 <= py,
            py < y || (py == y && px < x),
    ;
}

/// The stored pixel at (`x`, `y`) lies wholly inside the rows of the payload.
proof fn lemma_source_in_bounds(w: nat, h: nat, x: int, y: int)
    requires
        0 <= x < w,
        0 <= y < h,
    ensures
        40 <= source_offset(w, h, x, y),
        source_offset(w, h, x, y) + 4 <= 40 + h * row_stride(w),
{
    assert(0 <= (h - 1 - y) * (4 * w) && (h - 1 - y) * (4 * w) + 4 * w <= h * (4 * w))
        by (nonlinear_arith)
        requires
            0 <= y < h,
            0 <= w,
    ;
}

/// Copies the picture out of `raw` at its own size, turning the rows top
/// first and each pixel from blue-green-red-alpha to red-green-blue-alpha.
fn native_pixels(raw: &Vec<u8>, w: u32, h: u32) -> (pixels: Vec<u8>)
    requires
        decode_fault(raw@) is None,
        w == bitmap_width(raw@),
        h == bitmap_height(raw@),
    ensures
        is_native_image(raw@, pixels@),
{
    let mut pixels: Vec<u8> = Vec::new();
    if w == 0 || h == 0 {
        assert(4 * (w as nat) * (h as nat) == 0) by (nonlinear_arith)
            requires
                w == 0 || h == 0,
        ;
        return pixels;
    }
    let ghost gw = w as nat;
    let ghost gh = h as nat;
    let len: usize = raw.len();
    proof {
        assert(len >= required_len(raw@));
        assert(required_len(raw@) == 40 + gh * (4 * gw));
        assert(gh * (4 * gw) >= 4 * gw) by (nonlinear_arith)
            requires
                gh >= 1,
                gw >= 0,
        ;
        assert(4 * gw <= usize::MAX);
    }
    let width: usize = w as usize;
    let height: usize = h as usize;
    let stride: usize = 4 * width;
    let mut y: usize = 0;
    while y < height
        invariant
            decode_fault(raw@) is None,
            gw == bitmap_width(raw@),
            gh == bitmap_height(raw@),
            width == gw,
            height == gh,
            stride == 4 * gw,
            gw > 0,
            len == raw@.len(),
            y <= height,
            pixels@.len() == 4 * (y * gw),
            filled_to(raw@, pixels@, y as int, 0),
        decreases height - y,
    {
        proof {
            lemma_source_in_bounds(gw, gh, 0, y as int);
            assert(len >= required_len(raw@));
        }
        let row: usize = HEADER_LEN + (height - 1 - y) * stride;
        let mut x: usize = 0;
        while x < width
            invariant
                decode_fault(raw@) is None,
                gw == bitmap_width(raw@),
                gh == bitmap_height(raw@),
                width == gw,
                height == gh,
                stride == 4 * gw,
                len == raw@.len(),
                y < height,
                x <= width,
                row == 40 + (gh - 1 - y) * (4 * gw),
                pixels@.len() == 4 * (y * gw + x),
                filled_to(raw@, pixels@, y as int, x as int),
            decreases width - x,
        {
            proof {
                lemma_source_in_bounds(gw, gh, x as int, y as int);
                assert(len >= required_len(raw@));
            }
            let at: usize = row + 4 * x;
            let ghost before = pixels@;
            pixels.push(raw[at + 2]);
            pixels.push(raw[at + 1]);
            pixels.push(raw[at]);
            pixels.push(raw[at + 3]);
            proof {
                assert(4 * (y * gw + (x + 1)) == 4 * (y * gw + x) + 4);
                assert forall|px: int, py: int, c: int|
                    0 <= px < gw && 0 <= py < gh && 0 <= c < 4 && (py < y || (py == y && px < x
                        + 1)) implies #[trigger] pixels@[pixel_index(gw, px, py, c)]
                    == raw@[source_offset(gw, gh, px, py) + channel_source(c)] by {
                    if py < y || (py == y && px < x) {
                        lemma_earlier_pixels_lie_below(gw, x as int, y as int, px, py, c);
                        assert(pixels@[pixel_index(gw, px, py, c)] == before[pixel_index(
                            gw,
                            px,
                            py,
                            c,
                        )]);
                    } else {
                        assert(px == x && py == y);
                        assert(pixel_index(gw, px, py, c) == before.len() + c);
                    }
                }
            }
            x += 1;
        }
        proof {
            assert(4 * ((y + 1) * gw) == 4 * (y * gw + gw)) by (nonlinear_arith);
            assert forall|px: int, py: int, c: int|
                0 <= px < gw && 0 <= py < gh && 0 <= c < 4 && (py < y + 1 || (py == y + 1 && px
                    < 0)) implies #[trigger] pixels@[pixel_index(gw, px, py, c)] == raw@[source_offset(
                gw,
                gh,
                px,
                py,
            ) + channel_source(c)] by {
                assert(py < y || (py == y && px < gw));
            }
        }
        y += 1;
    }
    proof {
        assert(4 * (gh * gw) == 4 * gw * gh) by (nonlinear_arith);
    }
    pixels
}

/// Whether a picture of `w` by `h` pixels is too large to be shown as it is.
pub open spec fn needs_downscale(w: nat, h: nat) -> bool {
    w > 150 || h > 150
}

/// Width of the preview of a picture of `w` by `h` pixels. A picture that
/// needs no scaling keeps its width. Otherwise the longer side becomes 150
/// and the shorter one shrinks by the same ratio, rounded down.
pub open spec fn preview_width(w: nat, h: nat) -> nat {
    if !needs_downscale(w, h) {
        w
    } else if w > h {
        150
    } else {
        w * 150 / h
    }
}

/// Height of the preview of a picture of `w` by `h` pixels.
pub open spec fn preview_height(w: nat, h: nat) -> nat {
    if !needs_downscale(w, h) {
        h
    } else if w > h {
        h * 150 / w
    } else {
        150
    }
}

/// A preview never has a side longer than 150 pixels and never one longer
/// than the picture's own. A picture that is scaled down has a preview whose
/// longer side is exactly 150 and whose sides stand in the picture's ratio,
/// the shorter one rounded down to a whole pixel.
pub proof fn lemma_preview_size(w: nat, h: nat)
    ensures
        preview_width(w, h) <= 150,
        preview_height(w, h) <= 150,
        preview_width(w, h) <= w,
        preview_height(w, h) <= h,
        needs_downscale(w, h) ==> preview_width(w, h) == 150 || preview_height(w, h) == 150,
        needs_downscale(w, h) && w > h ==> preview_height(w, h) * w <= h * 150 < (
        preview_height(w, h) + 1) * w,
        needs_downscale(w, h) && w <= h ==> preview_width(w, h) * h <= w * 150 < (preview_width(
            w,
            h,
        ) + 1) * h,
{
    if needs_downscale(w, h) {
        if w > h {
            lemma_scaled_side(h, w);
        } else {
            lemma_scaled_side(w, h);
        }
    }
}

/// Scaling the shorter side `short` of a picture whose longer side `long`
/// becomes 150.
proof fn lemma_scaled_side(short: nat, long: nat)
    requires
        short <= long,
        long > 150,
    ensures
        0 <= short * 150 / long <= 150,
        short * 150 / long <= short,
        (short * 150 / long) * long <= short * 150 < (short * 150 / long + 1) * long,
{
    let q: nat = short * 150 / long;
    assert(q * long <= short * 150 < (q + 1) * long && 0 <= q) by (nonlinear_arith)
        requires
            q == short * 150 / long,
            long > 0,
            short >= 0,
    ;
    assert(q <= 150 && q <= short) by (nonlinear_arith)
        requires
            q * long <= short * 150,
            0 <= short <= long,
            long > 150,
            0 <= q,
    ;
}

/// The size of the preview of a picture of `w` by `h` pixels.
pub fn preview_size(w: u32, h: u32) -> (size: (u32, u32))
    ensures
        size.0 == preview_width(w as nat, h as nat),
        size.1 == preview_height(w as nat, h as nat),
{
    proof {
        lemma_preview_size(w as nat, h as nat);
    }
    if w <= MAX_SIDE && h <= MAX_SIDE {
        (w, h)
    } else if w > h {
        let scaled: u64 = (h as u64) * (MAX_SIDE as u64) / (w as u64);
        (MAX_SIDE, scaled as u32)
    } else {
        let scaled: u64 = (w as u64) * (MAX_SIDE as u64) / (h as u64);
        (scaled as u32, MAX_SIDE)
    }
}

/// A decoded picture: `width * height` pixels, rows top first, four bytes
/// per pixel in the order red, green, blue, alpha (not premultiplied).
#[derive(Debug)]
pub struct Preview {
    width: u32,
    height: u32,
    pixels: Vec<u8>,
}

/// What a [`Preview`] holds, as plain mathematical values.
pub struct PreviewView {
    pub width: nat,
    pub height: nat,
    pub pixels: Seq<u8>,
}

impl PreviewView {
    /// The picture without any pixel.
    pub open spec fn empty() -> PreviewView {
        PreviewView { width: 0, height: 0, pixels: Seq::empty() }
    }

    /// The buffer holds four bytes for each pixel of the stated size.
    pub open spec fn wf(self) -> bool {
        self.pixels.len() == 4 * self.width * self.height
    }
}

/// `preview` shows the picture stored in the decodable payload `raw`: it has
/// the preview size of that picture and a buffer to match, and where the
/// picture needed no scaling it holds the picture's own pixels. The colours
/// of a scaled preview are left to the resampling filter.
pub open spec fn is_preview_of(raw: Seq<u8>, preview: PreviewView) -> bool {
    let w = bitmap_width(raw);
    let h = bitmap_height(raw);
    &&& preview.width == preview_width(w, h)
    &&& preview.height == preview_height(w, h)
    &&& preview.wf()
    &&& !needs_downscale(w, h) ==> is_native_image(raw, preview.pixels)
}

impl View for Preview {
    type V = PreviewView;

    closed spec fn view(&self) -> PreviewView {
        PreviewView {
            width: self.width as nat,
            height: self.height as nat,
            pixels: self.pixels@,
        }
    }
}

impl Preview {
    /// The invariant that every preview keeps.
    #[verifier::type_invariant]
    pub open spec fn wf(&self) -> bool {
        self@.wf()
    }

    /// The preview without any pixel, shown where there is no picture.
    pub fn empty() -> (p: Preview)
        ensures
            p@ == PreviewView::empty(),
            p.wf(),
    {
        Preview { width: 0, height: 0, pixels: Vec::new() }
    }

    /// Width in pixels.
    pub fn width(&self) -> (w: u32)
        ensures
            w == self@.width,
    {
        self.width
    }

    /// Height in pixels.
    pub fn height(&self) -> (h: u32)
        ensures
            h == self@.height,
    {
        self.height
    }

    /// The pixel buffer.
    pub fn pixels(&self) -> (bytes: &Vec<u8>)
        ensures
            bytes@ == self@.pixels,
            bytes@.len() == 4 * self@.width * self@.height,
    {
        proof {
            use_type_invariant(self);
        }
        &self.pixels
    }

    /// A copy of this preview.
    pub fn duplicate(&self) -> (p: Preview)
        ensures
            p@ == self@,
            p.wf(),
    {
        proof {
            use_type_invariant(self);
        }
        let pixels = self.pixels.clone();
        assert(pixels@ =~= self.pixels@);
        Preview { width: self.width, height: self.height, pixels }
    }
}

impl Clone for Preview {
    fn clone(&self) -> (p: Preview)
        ensures
            p@ == self@,
            p.wf(),
    {
        self.duplicate()
    }
}

/// Scales an RGBA picture down with `image::imageops::resize` and the
/// Lanczos3 filter. Trusted: for a buffer of `width * height` pixels and a
/// target no larger than the picture on either side, the call returns and
/// its buffer holds `new_width * new_height` pixels. Nothing is claimed of
/// the colours, which the filter computes in floating point.
#[verifier::external_body]
fn resize_rgba(pixels: &Vec<u8>, width: u32, height: u32, new_width: u32, new_height: u32) -> (out:
    Vec<u8>)
    requires
        pixels@.len() == 4 * width * height,
        new_width <= width,
        new_height <= height,
        4 * new_width * new_height <= isize::MAX,
        16 * width * new_height <= isize::MAX,
    ensures
        out@.len() == 4 * new_width * new_height,
{
    let source = ImageBuffer::<Rgba<u8>, &[u8]>::from_raw(width, height, pixels.as_slice()).unwrap();
    resize(&source, new_width, new_height, FilterType::Lanczos3).into_raw()
}

/// A side `s` whose square fits four times into the address space is small
/// enough for 2400 of them to fit into half of it.
proof fn lemma_side_is_small(s: nat)
    requires
        4 * s * s <= usize::MAX,
    ensures
        2400 * s <= isize::MAX,
{
    if usize::MAX == 0xffff_ffff {
        assert(s < 0x8000) by (nonlinear_arith)
            requires
                4 * s * s <= 0xffff_ffff,
        ;
    } else {
        assert(s < 0x8000_0000) by (nonlinear_arith)
            requires
                4 * s * s <= 0xffff_ffff_ffff_ffff,
        ;
    }
}

/// The intermediate picture that scaling a stored picture down goes through,
/// as wide as the source and as high as the target, fits in memory.
proof fn lemma_scratch_fits(w: nat, h: nat)
    requires
        4 * w * h <= usize::MAX,
        needs_downscale(w, h),
    ensures
        16 * w * preview_height(w, h) <= isize::MAX,
        4 * preview_width(w, h) * preview_height(w, h) <= isize::MAX,
{
    let nh = preview_height(w, h);
    let nw = preview_width(w, h);
    lemma_preview_size(w, h);
    assert(4 * nw * nh <= 90000) by (nonlinear_arith)
        requires
            nw <= 150,
            nh <= 150,
    ;
    if w > h {
        assert(4 * h * h <= 4 * w * h) by (nonlinear_arith)
            requires
                h <= w,
        ;
        lemma_side_is_small(h);
        assert(16 * w * nh <= 2400 * h) by (nonlinear_arith)
            requires
                nh * w <= h * 150,
        ;
    } else {
        assert(4 * w * w <= 4 * w * h) by (nonlinear_arith)
            requires
                w <= h,
        ;
        lemma_side_is_small(w);
        assert(16 * w * nh == 2400 * w) by (nonlinear_arith)
            requires
                nh == 150,
        ;
    }
}

/// Decodes a bitmap payload into its preview.
///
/// Fails, without reading past the end of `raw`, where the payload is
/// shorter than its header or than the rows that the header declares.
pub fn decode_bitmap(raw: &Vec<u8>) -> (r: Result<Preview, DecodeFault>)
    ensures
        match r {
            Ok(preview) => decode_fault(raw@) is None && is_preview_of(raw@, preview@),
            Err(fault) => decode_fault(raw@) == Some(fault),
        },
{
    let (w, h) = match bitmap_size(raw) {
        Ok(size) => size,
        Err(fault) => {
            return Err(fault);
        },
    };
    let native = native_pixels(raw, w, h);
    if w <= MAX_SIDE && h <= MAX_SIDE {
        return Ok(Preview { width: w, height: h, pixels: native });
    }
    let (new_w, new_h) = preview_size(w, h);
    proof {
        assert(native@.len() == native.len());
        lemma_preview_size(w as nat, h as nat);
        lemma_scratch_fits(w as nat, h as nat);
    }
    let scaled = resize_rgba(&native, w, h, new_w, new_h);
    Ok(Preview { width: new_w, height: new_h, pixels: scaled })
}

} // verus!
