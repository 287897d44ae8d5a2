use vstd::prelude::*;

use crate::error::{ErrorKind, XCapError, XCapResult};

verus! {

/// Byte layout of one native pixel.
#[derive(Clone, Copy, Debug, PartialEq, Eq, Structural)]
pub enum PixelFormat {
    /// Blue, green, red, alpha: one byte each.
    Bgra8,
    /// Red, green, blue, alpha: one byte each.
    Rgba8,
    /// Any other layout, named by its four-character code.
    Unsupported(u32),
}

/// Which stored row holds the top of the picture.
#[derive(Clone, Copy, Debug, PartialEq, Eq, Structural)]
pub enum RowOrder {
    /// The first stored row is the top row.
    TopDown,
    /// The first stored row is the bottom row.
    BottomUp,
}

/// A native pixel buffer as the platform delivered it: rows of
/// `bytes_per_row` bytes (which may exceed `4 * width`), in `format`.
#[derive(Clone, Debug)]
pub struct RawFrame {
    pub width: u32,
    pub height: u32,
    pub bytes_per_row: usize,
    pub format: PixelFormat,
    pub row_order: RowOrder,
    pub data: Vec<u8>,
}

/// A decoded image: `width * height` pixels, row-major from the top-left
/// corner, four bytes each in RGBA order, rows without padding.
#[derive(Clone, Debug)]
pub struct RgbaRaster {
    pub width: u32,
    pub height: u32,
    pub pixels: Vec<u8>,
}

/// The frame can be normalised: a known layout, rows wide enough for the
/// pixels, a buffer long enough for the rows, and a result that fits in memory.
pub open spec fn frame_decodable(f: RawFrame) -> bool {
    &&& !(f.format is Unsupported)
    &&& f.bytes_per_row >= 4 * f.width
    &&& f.data@.len() >= f.bytes_per_row * f.height
    &&& f.width * f.height * 4 <= usize::MAX
}

/// The stored row that holds row `y` of the picture, counted from the top.
pub open spec fn source_row(f: RawFrame, y: int) -> int {
    match f.row_order {
        RowOrder::TopDown => y,
        RowOrder::BottomUp => f.height - 1 - y,
    }
}

/// The native byte offset, within a pixel, of RGBA channel `c`.
pub open spec fn source_channel(format: PixelFormat, c: int) -> int {
    match format {
        PixelFormat::Bgra8 => if c == 0 {
            2
        } else if c == 2 {
            0
        } else {
            c
        },
        _ => c,
    }
}

/// Byte `i` of the decoded image: channel `i % 4` of pixel `i / 4`.
pub open spec fn decoded_byte(f: RawFrame, i: int) -> u8 {
    let px = i / 4;
    let c = i % 4;
    let y = px / (f.width as int);
    let x = px % (f.width as int);
    f.data@[source_row(f, y) * f.bytes_per_row + x * 4 + source_channel(f.format, c)]
}

/// The bytes of the decoded image.
pub open spec fn decoded(f: RawFrame) -> Seq<u8> {
    Seq::new((f.width * f.height * 4) as nat, |i: int| decoded_byte(f, i))
}

proof fn lemma_pixel_position(i: int, w: int, h: int)
    requires
        0 <= i < w * h * 4,
        w >= 0,
        h >= 0,
    ensures
        w > 0,
        h > 0,
        0 <= (i / 4) / w < h,
        0 <= (i / 4) % w < w,
        0 <= i % 4 < 4,
{
    assert(w > 0 && h > 0) by (nonlinear_arith)
        requires
            0 <= i < w * h * 4,
            w >= 0,
            h >= 0,
    ;
    assert(i / 4 < w * h) by (nonlinear_arith)
        requires
            0 <= i < w * h * 4,
    ;
    assert((i / 4) / w < h) by (nonlinear_arith)
        requires
            0 <= i / 4 < w * h,
            w > 0,
    ;
}

proof fn lemma_byte_in_row(row: int, x: int, ch: int, w: int, h: int, stride: int)
    requires
        0 <= row < h,
        0 <= x < w,
        0 <= ch < 4,
        stride >= 4 * w,
    ensures
        0 <= row * stride <= (h - 1) * stride,
        row * stride + x * 4 + ch < stride * h,
{
    assert(0 <= row * stride <= (h - 1) * stride) by (nonlinear_arith)
        requires
            0 <= row < h,
            stride >= 0,
    ;
    assert(row * stride + stride <= stride * h) by (nonlinear_arith)
        requires
            0 <= row < h,
            stride >= 0,
    ;
}

/// The four bytes that store colour `(r, g, b, a)` in a pixel of `format`.
pub open spec fn native_pixel(format: PixelFormat, r: u8, g: u8, b: u8, a: u8) -> Seq<u8> {
    match format {
        PixelFormat::Bgra8 => seq![b, g, r, a],
        _ => seq![r, g, b, a],
    }
}

/// Every stored pixel of `f` holds colour `(r, g, b, a)` in `f`'s own layout.
pub open spec fn frame_is_uniform(f: RawFrame, r: u8, g: u8, b: u8, a: u8) -> bool {
    forall|row: int, x: int, c: int|
        0 <= row < f.height && 0 <= x < f.width && 0 <= c < 4 ==> #[trigger] f.data@[row
            * f.bytes_per_row + x * 4 + c] == native_pixel(f.format, r, g, b, a)[c]
}

/// Decoding puts channels in RGBA order whatever the native layout: a frame
/// filled with one colour decodes to that colour's `r, g, b, a` at every pixel.
pub proof fn lemma_uniform_frame_decodes_to_rgba(f: RawFrame, r: u8, g: u8, b: u8, a: u8)
    requires
        frame_decodable(f),
        frame_is_uniform(f, r, g, b, a),
    ensures
        decoded(f).len() == f.width * f.height * 4,
        forall|i: int|
            0 <= i < decoded(f).len() ==> #[trigger] decoded(f)[i] == seq![r, g, b, a][i % 4],
{
    assert forall|i: int| 0 <= i < decoded(f).len() implies #[trigger] decoded(f)[i] == seq![
        r,
        g,
        b,
        a,
    ][i % 4] by {
        let w = f.width as int;
        let h = f.height as int;
        lemma_pixel_position(i, w, h);
        let y = (i / 4) / w;
        let x = (i / 4) % w;
        let c = i % 4;
        let row = source_row(f, y);
        let ch = source_channel(f.format, c);
        assert(0 <= row < h);
        assert(0 <= ch < 4);
        assert(f.data@[row * f.bytes_per_row + x * 4 + ch] == native_pixel(
            f.format,
            r,
            g,
            b,
            a,
        )[ch]);
    }
}

/// Copies the frame's pixels into a tightly packed, top-down RGBA buffer,
/// reordering channels where the native layout is not RGBA.
pub fn decode_frame(f: &RawFrame) -> (r: XCapResult<RgbaRaster>)
    ensures
        match r {
            Ok(img) => {
                &&& frame_decodable(*f)
                &&& img.width == f.width
                &&& img.height == f.height
                &&& img.pixels@.len() == f.width * f.height * 4
                &&& img.pixels@ == decoded(*f)
            },
            Err(e) => !frame_decodable(*f) && e.kind == ErrorKind::DecodeFailed,
        },
{
    let bgra = match f.format {
        PixelFormat::Bgra8 => true,
        PixelFormat::Rgba8 => false,
        PixelFormat::Unsupported(_) => {
            return Err(XCapError::with_kind(ErrorKind::DecodeFailed, "unsupported pixel format"));
        },
    };
    let w = f.width as usize;
    let h = f.height as usize;
    let stride = f.bytes_per_row;
    let row_bytes = match w.checked_mul(4) {
        Some(n) => n,
        None => {
            return Err(XCapError::with_kind(ErrorKind::DecodeFailed, "frame too large"));
        },
    };
    if stride < row_bytes {
        return Err(XCapError::with_kind(ErrorKind::DecodeFailed, "row stride shorter than a row"));
    }
    let available = f.data.len();
    let needed = match stride.checked_mul(h) {
        Some(n) => n,
        None => {
            return Err(XCapError::with_kind(ErrorKind::DecodeFailed, "pixel buffer too short"));
        },
    };
    if available < needed {
        return Err(XCapError::with_kind(ErrorKind::DecodeFailed, "pixel buffer too short"));
    }
    let total = match row_bytes.checked_mul(h) {
        Some(n) => n,
        None => {
            proof {
                assert(w * h * 4 == row_bytes * h) by (nonlinear_arith)
                    requires row_bytes == w * 4;
            }
            return Err(XCapError::with_kind(ErrorKind::DecodeFailed, "frame too large"));
        },
    };
    proof {
        assert(w * h * 4 == row_bytes * h) by (nonlinear_arith)
            requires row_bytes == w * 4;
    }
    let bottom_up = match f.row_order {
        RowOrder::BottomUp => true,
        RowOrder::TopDown => false,
    };
    let mut out: Vec<u8> = Vec::with_capacity(total);
    let mut i: usize = 0;
    while i < total
        invariant
            frame_decodable(*f),
            w == f.width,
            h == f.height,
            stride == f.bytes_per_row,
            needed == stride * h,
            total == w * h * 4,
            bgra == (f.format == PixelFormat::Bgra8),
            bottom_up == (f.row_order == RowOrder::BottomUp),
            i <= total,
            out@.len() == i,
            forall|j: int| 0 <= j < i ==> out@[j] == decoded_byte(*f, j),
        decreases total - i,
    {
        proof {
            lemma_pixel_position(i as int, w as int, h as int);
        }
        let px = i / 4;
        let c = i % 4;
        let y = px / w;
        let x = px % w;
        let row = if bottom_up {
            h - 1 - y
        } else {
            y
        };
        let ch = if bgra && c == 0 {
            2
        } else if bgra && c == 2 {
            0
        } else {
            c
        };
        proof {
            lemma_byte_in_row(row as int, x as int, ch as int, w as int, h as int, stride as int);
        }
        let idx = row * stride + x * 4 + ch;
        out.push(f.data[idx]);
        i += 1;
    }
    assert(out@ =~= decoded(*f));
    Ok(RgbaRaster { width: f.width, height: f.height, pixels: out })
}

} // verus!
