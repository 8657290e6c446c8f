//! Pixel conversions for the display: RGB24 to RGB565, center cropping of
//! RGB565 images, and a gradient test pattern.
//!
//! RGB565 pixels are stored little-endian, two bytes per pixel.
use crate::error::{DisplayError, DoorcamError};
use crate::text::{decimal, push_decimal};
use vstd::prelude::*;

verus! {

/// The RGB565 value of an RGB24 pixel: the top 5 bits of red, top 6 of
/// green and top 5 of blue.
pub open spec fn rgb565(r: u8, g: u8, b: u8) -> u16 {
    (((r >> 3u8) as u16) << 11u16) | (((g >> 2u8) as u16) << 5u16) | ((b >> 3u8) as u16)
}

/// Low byte then high byte of a 16-bit value.
pub open spec fn le16_byte(v: u16, hi: bool) -> u8 {
    if hi {
        (v >> 8u16) as u8
    } else {
        (v & 0xffu16) as u8
    }
}

/// The RGB565 bytes of RGB24 data: pixel `i` of the input (bytes `3i`,
/// `3i+1`, `3i+2`) becomes bytes `2i` (low) and `2i+1` (high).
pub open spec fn spec_rgb24_to_rgb565(d: Seq<u8>) -> Seq<u8> {
    Seq::new(
        ((d.len() / 3) * 2) as nat,
        |j: int|
            le16_byte(
                rgb565(d[3 * (j / 2)], d[3 * (j / 2) + 1], d[3 * (j / 2) + 2]),
                j % 2 == 1,
            ),
    )
}

/// The message for data of the wrong size.
pub open spec fn size_message(kind: Seq<char>, expected: nat, got: nat) -> Seq<char> {
    "Invalid "@ + kind + " data size: expected "@ + decimal(expected) + ", got "@ + decimal(got)
}

/// A display format-conversion error for data of the wrong size.
fn size_error(kind: &str, expected: u64, got: u64) -> (e: DoorcamError)
    ensures
        e matches DoorcamError::Display(DisplayError::FormatConversion { details })
            && details@ == size_message(kind@, expected as nat, got as nat),
{
    let mut details = "Invalid ".to_owned();
    details.append(kind);
    details.append(" data size: expected ");
    push_decimal(&mut details, expected);
    details.append(", got ");
    push_decimal(&mut details, got);
    DoorcamError::Display(DisplayError::FormatConversion { details })
}

/// Pixel `(x, y)` of the gradient test pattern of a `w` by `h` image.
pub open spec fn placeholder_pixel(x: nat, y: nat, w: nat, h: nat) -> u16 {
    let r = ((x * 31) / w) as u16;
    let g = ((y * 63) / h) as u16;
    let b = (((x + y) * 31) / (w + h)) as u16;
    (r << 11u16) | (g << 5u16) | b
}

/// Rows `0..rows` of the gradient test pattern of a `w` by `h` image.
pub open spec fn spec_placeholder_rows(w: nat, h: nat, rows: nat) -> Seq<u8>
    decreases rows,
{
    if rows == 0 {
        Seq::empty()
    } else {
        spec_placeholder_rows(w, h, (rows - 1) as nat) + placeholder_row(w, h, (rows - 1) as nat)
    }
}

/// Row `y` of the gradient test pattern of a `w` by `h` image.
pub open spec fn placeholder_row(w: nat, h: nat, y: nat) -> Seq<u8> {
    Seq::new(2 * w, |j: int| le16_byte(placeholder_pixel((j / 2) as nat, y, w, h), j % 2 == 1))
}

/// The arithmetic of the test pattern stays within 32 bits.
pub open spec fn placeholder_fits(w: u32, h: u32) -> bool {
    &&& w * h <= u32::MAX
    &&& w * 31 <= u32::MAX
    &&& h * 63 <= u32::MAX
    &&& (w + h) * 31 <= u32::MAX
}

/// Rows `0..rows` of the center crop: row `y` is `2 * cw` bytes starting at
/// pixel `(ox, oy + y)` of an image `sw` pixels wide.
pub open spec fn spec_crop_rows(d: Seq<u8>, sw: nat, ox: nat, oy: nat, cw: nat, rows: nat) -> Seq<u8>
    decreases rows,
{
    if rows == 0 {
        Seq::empty()
    } else {
        let start = (((oy + rows - 1) * sw + ox) * 2) as int;
        spec_crop_rows(d, sw, ox, oy, cw, (rows - 1) as nat) + d.subrange(start, start + 2 * cw)
    }
}

/// The smaller of two numbers.
pub open spec fn min_nat(a: nat, b: nat) -> nat {
    if a < b {
        a
    } else {
        b
    }
}

/// The center crop of an `sw` by `sh` RGB565 image to at most `dw` by `dh`.
pub open spec fn spec_crop(d: Seq<u8>, sw: nat, sh: nat, dw: nat, dh: nat) -> Seq<u8> {
    let cw = min_nat(dw, sw);
    let ch = min_nat(dh, sh);
    spec_crop_rows(d, sw, ((sw - cw) / 2) as nat, ((sh - ch) / 2) as nat, cw, ch)
}

/// Rows of a crop that lie inside the image have `2 * cw` bytes each.
proof fn lemma_crop_rows_len(d: Seq<u8>, sw: nat, sh: nat, ox: nat, oy: nat, cw: nat, rows: nat)
    requires
        d.len() == sw * sh * 2,
        ox + cw <= sw,
        oy + rows <= sh,
    ensures
        spec_crop_rows(d, sw, ox, oy, cw, rows).len() == rows * cw * 2,
    decreases rows,
{
    if rows > 0 {
        lemma_crop_rows_len(d, sw, sh, ox, oy, cw, (rows - 1) as nat);
        let r = (oy + rows - 1) as nat;
        let start = (((oy + rows - 1) * sw + ox) * 2) as int;
        assert(start == (r * sw + ox) * 2);
        assert(0 <= start);
        assert(((r * sw + ox) * 2) + 2 * cw <= d.len()) by (nonlinear_arith)
            requires
                d.len() == sw * sh * 2,
                ox + cw <= sw,
                r + 1 <= sh,
        {
            assert((r + 1) * sw <= sh * sw);
        }
        assert(d.subrange(start, start + 2 * cw).len() == 2 * cw);
        assert(spec_crop_rows(d, sw, ox, oy, cw, rows) == spec_crop_rows(d, sw, ox, oy, cw, (rows - 1) as nat)
            + d.subrange(start, start + 2 * cw));
        let rm = (rows - 1) as nat;
        assert(spec_crop_rows(d, sw, ox, oy, cw, rm).len() == rm * cw * 2);
        assert(spec_crop_rows(d, sw, ox, oy, cw, rows).len() == rm * cw * 2 + 2 * cw);
        assert(rm * cw * 2 + 2 * cw == rows * cw * 2) by (nonlinear_arith)
            requires
                rm + 1 == rows,
        ;
    } else {
        assert(rows * cw * 2 == 0) by (nonlinear_arith)
            requires
                rows == 0,
        ;
    }
}

/// A center crop of an `sw` by `sh` RGB565 image holds `min(dw, sw)` by
/// `min(dh, sh)` pixels, two bytes each.
pub proof fn law_crop_size(d: Seq<u8>, sw: nat, sh: nat, dw: nat, dh: nat)
    requires
        d.len() == sw * sh * 2,
    ensures
        spec_crop(d, sw, sh, dw, dh).len() == min_nat(dw, sw) * min_nat(dh, sh) * 2,
{
    let cw = min_nat(dw, sw);
    let ch = min_nat(dh, sh);
    lemma_crop_rows_len(d, sw, sh, ((sw - cw) / 2) as nat, ((sh - ch) / 2) as nat, cw, ch);
    assert(ch * cw * 2 == cw * ch * 2) by (nonlinear_arith);
}

/// RGB24 data of `n` pixels converts to `n` RGB565 pixels of two bytes.
pub proof fn law_rgb565_size(d: Seq<u8>, pixels: nat)
    requires
        d.len() == pixels * 3,
    ensures
        spec_rgb24_to_rgb565(d).len() == pixels * 2,
{
    assert(d.len() / 3 == pixels) by (nonlinear_arith)
        requires
            d.len() == pixels * 3,
    ;
}

/// Display format conversion utilities.
pub struct DisplayConverter;

impl DisplayConverter {
    /// A gradient test pattern in RGB565: red grows left to right, green top
    /// to bottom, blue along the diagonal.
    pub fn create_placeholder_rgb565(width: u32, height: u32) -> (r: Result<Vec<u8>, DoorcamError>)
        requires
            placeholder_fits(width, height),
        ensures
            r matches Ok(v) && v@ == spec_placeholder_rows(width as nat, height as nat, height as nat),
    {
        let mut data: Vec<u8> = Vec::new();
        let mut y: u32 = 0;
        while y < height
            invariant
                placeholder_fits(width, height),
                y <= height,
                data@ == spec_placeholder_rows(width as nat, height as nat, y as nat),
            decreases height - y,
        {
            let ghost before = data@;
            let mut x: u32 = 0;
            while x < width
                invariant
                    placeholder_fits(width, height),
                    y < height,
                    x <= width,
                    before == spec_placeholder_rows(width as nat, height as nat, y as nat),
                    data@ == before + placeholder_row(width as nat, height as nat, y as nat).take(2 * x),
                decreases width - x,
            {
                assert(x * 31 <= width * 31) by (nonlinear_arith)
                    requires
                        x <= width,
                ;
                assert(y * 63 <= height * 63) by (nonlinear_arith)
                    requires
                        y <= height,
                ;
                assert((x + y) * 31 <= (width + height) * 31) by (nonlinear_arith)
                    requires
                        x + y <= width + height,
                ;
                let r = ((x * 31) / width) as u16;
                let g = ((y * 63) / height) as u16;
                let b = (((x + y) * 31) / (width + height)) as u16;
                let rgb565 = (r << 11u16) | (g << 5u16) | b;
                let ghost prev = data@;
                data.push((rgb565 & 0xffu16) as u8);
                data.push((rgb565 >> 8u16) as u8);
                proof {
                    let row = placeholder_row(width as nat, height as nat, y as nat);
                    assert(rgb565 == placeholder_pixel(x as nat, y as nat, width as nat, height as nat));
                    assert(row[2 * x as int] == (rgb565 & 0xffu16) as u8);
                    assert(row[2 * x + 1] == (rgb565 >> 8u16) as u8);
                    assert(data@ =~= before + row.take(2 * x + 2));
                }
                x = x + 1;
            }
            proof {
                let row = placeholder_row(width as nat, height as nat, y as nat);
                assert(row.take(2 * width) =~= row);
            }
            y = y + 1;
        }
        Ok(data)
    }

    /// Convert RGB24 data of a `width` by `height` image to RGB565; the data
    /// must hold exactly three bytes per pixel.
    pub fn rgb24_to_rgb565(rgb24_data: &[u8], width: u32, height: u32) -> (r: Result<Vec<u8>, DoorcamError>)
        requires
            width * height * 3 <= u32::MAX,
        ensures
            rgb24_data@.len() == width * height * 3 ==> (r matches Ok(v) && v@ == spec_rgb24_to_rgb565(rgb24_data@)),
            rgb24_data@.len() != width * height * 3 ==> (r matches Err(DoorcamError::Display(DisplayError::FormatConversion { details }))
                && details@ == size_message("RGB24"@, (width * height * 3) as nat, rgb24_data@.len())),
    {
        assert(width * height <= width * height * 3) by (nonlinear_arith);
        let expected_size = (width * height * 3) as usize;
        if rgb24_data.len() != expected_size {
            return Err(size_error("RGB24", expected_size as u64, rgb24_data.len() as u64));
        }
        let len = rgb24_data.len();
        let n = len / 3;
        assert(3 * n <= rgb24_data@.len());
        let mut out: Vec<u8> = Vec::new();
        let mut i: usize = 0;
        while i < n
            invariant
                len == rgb24_data@.len(),
                n == rgb24_data@.len() / 3,
                3 * n <= rgb24_data@.len(),
                i <= n,
                out@.len() == 2 * i,
                forall|j: int| 0 <= j < 2 * i ==> out@[j] == spec_rgb24_to_rgb565(rgb24_data@)[j],
            decreases n - i,
        {
            let r = rgb24_data[3 * i] >> 3u8;
            let g = rgb24_data[3 * i + 1] >> 2u8;
            let b = rgb24_data[3 * i + 2] >> 3u8;
            let v: u16 = ((r as u16) << 11u16) | ((g as u16) << 5u16) | (b as u16);
            let ghost expect = rgb565(rgb24_data@[3 * i as int], rgb24_data@[3 * i + 1], rgb24_data@[3 * i + 2]);
            assert(v == expect);
            out.push((v & 0xffu16) as u8);
            out.push((v >> 8u16) as u8);
            proof {
                assert forall|j: int| 0 <= j < 2 * (i + 1) implies out@[j] == spec_rgb24_to_rgb565(rgb24_data@)[j] by {
                    if j >= 2 * i {
                        assert(j / 2 == i);
                    }
                }
            }
            i = i + 1;
        }
        assert(out@ =~= spec_rgb24_to_rgb565(rgb24_data@));
        Ok(out)
    }

    /// Center-crop an `src_width` by `src_height` RGB565 image to at most
    /// `dst_width` by `dst_height`; the data must hold exactly two bytes per
    /// pixel.
    pub fn crop_rgb565(data: &[u8], src_width: u32, src_height: u32, dst_width: u32, dst_height: u32) -> (r: Result<Vec<u8>, DoorcamError>)
        requires
            src_width * src_height * 2 <= u32::MAX,
        ensures
            data@.len() == src_width * src_height * 2 ==> (r matches Ok(v) && v@ == spec_crop(data@, src_width as nat, src_height as nat, dst_width as nat, dst_height as nat)),
            data@.len() != src_width * src_height * 2 ==> (r matches Err(DoorcamError::Display(DisplayError::FormatConversion { details }))
                && details@ == size_message("RGB565"@, (src_width * src_height * 2) as nat, data@.len())),
    {
        assert(src_width * src_height <= src_width * src_height * 2) by (nonlinear_arith);
        let expected = (src_width * src_height * 2) as usize;
        if data.len() != expected {
            return Err(size_error("RGB565", expected as u64, data.len() as u64));
        }
        let crop_width = if dst_width < src_width { dst_width } else { src_width };
        let crop_height = if dst_height < src_height { dst_height } else { src_height };
        let offset_x = (src_width - crop_width) / 2;
        let offset_y = (src_height - crop_height) / 2;
        assert(crop_width * crop_height <= src_width * src_height) by (nonlinear_arith)
            requires
                crop_width <= src_width,
                crop_height <= src_height,
        ;
        let mut cropped: Vec<u8> = Vec::new();
        let mut y: u32 = 0;
        while y < crop_height
            invariant
                data@.len() == src_width * src_height * 2,
                src_width * src_height * 2 <= u32::MAX,
                crop_width <= src_width,
                crop_height <= src_height,
                offset_x + crop_width <= src_width,
                offset_y + crop_height <= src_height,
                y <= crop_height,
                cropped@ == spec_crop_rows(data@, src_width as nat, offset_x as nat, offset_y as nat, crop_width as nat, y as nat),
            decreases crop_height - y,
        {
            let src_y = offset_y + y;
            assert(src_y * src_width + offset_x + crop_width <= src_height * src_width) by (nonlinear_arith)
                requires
                    src_y + 1 <= src_height,
                    offset_x + crop_width <= src_width,
            ;
            assert(src_height * src_width == src_width * src_height) by (nonlinear_arith);
            let src_row_start = (src_y * src_width + offset_x) as usize * 2;
            let src_row_end = src_row_start + (crop_width as usize * 2);
            let ghost before = cropped@;
            let row = vstd::slice::slice_subrange(data, src_row_start, src_row_end);
            let mut row_vec = vstd::slice::slice_to_vec(row);
            cropped.append(&mut row_vec);
            assert(cropped@ =~= before + data@.subrange(src_row_start as int, src_row_start + 2 * crop_width));
            y = y + 1;
        }
        Ok(cropped)
    }

    /// Rotation of display data is not built in: the data is returned as it is.
    pub fn apply_rotation(data: &[u8], width: u32, height: u32, rotation: crate::config::Rotation) -> (r: Result<Vec<u8>, DoorcamError>)
        ensures
            r matches Ok(v) && v@ == data@,
    {
        Ok(vstd::slice::slice_to_vec(data))
    }
}


/// An RGB565 pixel keeps the top 5 bits of red in its top bits, the top 6
/// bits of green in the middle and the top 5 bits of blue at the bottom.
pub proof fn law_rgb565_channels(r: u8, g: u8, b: u8)
    ensures
        rgb565(r, g, b) >> 11u16 == (r >> 3u8) as u16,
        (rgb565(r, g, b) >> 5u16) & 0x3fu16 == (g >> 2u8) as u16,
        rgb565(r, g, b) & 0x1fu16 == (b >> 3u8) as u16,
{
    assert(((((r >> 3u8) as u16) << 11u16) | (((g >> 2u8) as u16) << 5u16) | ((b >> 3u8) as u16)) >> 11u16 == (r
        >> 3u8) as u16) by (bit_vector);
    assert((((((r >> 3u8) as u16) << 11u16) | (((g >> 2u8) as u16) << 5u16) | ((b >> 3u8) as u16)) >> 5u16)
        & 0x3fu16 == (g >> 2u8) as u16) by (bit_vector);
    assert(((((r >> 3u8) as u16) << 11u16) | (((g >> 2u8) as u16) << 5u16) | ((b >> 3u8) as u16)) & 0x1fu16 == (b
        >> 3u8) as u16) by (bit_vector);
}

/// The two bytes of a pixel are its low byte then its high byte.
pub proof fn law_le16_bytes(v: u16)
    ensures
        (le16_byte(v, false) as u16) | ((le16_byte(v, true) as u16) << 8u16) == v,
{
    assert(((v & 0xffu16) as u8 as u16) | (((v >> 8u16) as u8 as u16) << 8u16) == v) by (bit_vector);
}

} // verus!
