//! The integer steps of motion analysis: grayscale extraction from YUYV
//! frames, the difference between two grayscale images, the size of the
//! largest labelled region, the decode size of a JPEG frame, and which
//! frame the analysis loop looks at next.
use crate::error::AnalyzerError;
use crate::events::DoorcamEvent;
use crate::frame::FrameData;
use vstd::arithmetic::div_mod::lemma_fundamental_div_mod_converse;
use vstd::prelude::*;

verus! {

/// A grayscale image: `pixels` holds the rows one after the other, each
/// `width` bytes long.
#[derive(Debug, Clone)]
pub struct GrayBuffer {
    pub width: u32,
    pub height: u32,
    pub pixels: Vec<u8>,
}

impl GrayBuffer {
    /// One byte per pixel.
    pub open spec fn wf(&self) -> bool {
        self.pixels@.len() == self.width * self.height
    }

    /// The pixel in column `x` of row `y`.
    pub open spec fn pixel(&self, x: int, y: int) -> u8 {
        self.pixels@[y * self.width + x]
    }
}

/// What `image::load_from_memory` followed by `DynamicImage::to_luma8`
/// gives for encoded bytes: the width, the height and the gray pixels row by
/// row, or the text of the decoder's error.
pub uninterp spec fn decoded_luma(data: Seq<u8>) -> Result<(u32, u32, Seq<u8>), Seq<char>>;

/// A decoded gray image or a decoder error, as plain values.
pub open spec fn luma_result_view(r: Result<GrayBuffer, String>) -> Result<(u32, u32, Seq<u8>), Seq<char>> {
    match r {
        Ok(g) => Ok((g.width, g.height, g.pixels@)),
        Err(e) => Err(e@),
    }
}

/// Calls `image::load_from_memory` (the format guessed from the bytes) and
/// converts the picture to 8-bit gray with `to_luma8`; a failure gives the
/// error's text. The result is named, not stated: it is the decoder's.
#[verifier::external_body]
fn decode_luma(data: &[u8]) -> (r: Result<GrayBuffer, String>)
    ensures
        luma_result_view(r) == decoded_luma(data@),
{
    match image::load_from_memory(data) {
        Ok(img) => {
            let gray = img.to_luma8();
            Ok(GrayBuffer { width: gray.width(), height: gray.height(), pixels: gray.into_raw() })
        },
        Err(e) => Err(e.to_string()),
    }
}

/// The gray image of an MJPEG frame, or the decoder's failure.
pub open spec fn spec_mjpeg_to_gray(data: Seq<u8>) -> Result<(u32, u32, Seq<u8>), Seq<char>> {
    match decoded_luma(data) {
        Ok(g) => Ok(g),
        Err(e) => Err("MJPEG decode failed: "@ + e),
    }
}

/// Decode an MJPEG frame to a gray image; a frame that does not decode is
/// a frame-processing error that carries the decoder's message.
pub fn mjpeg_to_gray(frame: &FrameData) -> (r: Result<GrayBuffer, AnalyzerError>)
    ensures
        match (r, spec_mjpeg_to_gray(frame.data@)) {
            (Ok(g), Ok(v)) => (g.width, g.height, g.pixels@) == v,
            (Err(AnalyzerError::FrameProcessing { details }), Err(m)) => details@ == m,
            _ => false,
        },
{
    match decode_luma(frame.data.as_slice()) {
        Ok(g) => Ok(g),
        Err(e) => Err(AnalyzerError::FrameProcessing { details: crate::text::concat("MJPEG decode failed: ", e.as_str()) }),
    }
}

/// The gray value of pixel `i` (in row order) of a `width`-wide YUYV frame:
/// the luma byte of the pixel's half of its 4-byte pair, 0 where the frame
/// data is too short, and 0 in the last column of an odd-width frame.
pub open spec fn yuyv_gray_at(width: int, data: Seq<u8>, i: int) -> u8 {
    let x = i % width;
    let y = i / width;
    let pair = x / 2;
    let base = ((y * width) / 2 + pair) * 4;
    if pair < width / 2 && base + 3 < data.len() {
        if x % 2 == 0 {
            data[base]
        } else {
            data[base + 2]
        }
    } else {
        0
    }
}

/// The luma plane of a YUYV frame (`Y0 U Y1 V` for each pair of pixels).
pub fn yuyv_to_gray(frame: &FrameData) -> (g: GrayBuffer)
    requires
        frame.width * frame.height <= usize::MAX,
    ensures
        g.wf(),
        g.width == frame.width,
        g.height == frame.height,
        forall|i: int| 0 <= i < g.pixels@.len() ==> #[trigger] g.pixels@[i] == yuyv_gray_at(frame.width as int, frame.data@, i),
{
    let width = frame.width as usize;
    let n: usize = frame.width as usize * frame.height as usize;
    let data: &Vec<u8> = &frame.data;
    let mut pixels: Vec<u8> = Vec::new();
    let mut i: usize = 0;
    let mut x: usize = 0;
    let mut y: usize = 0;
    while i < n
        invariant
            width == frame.width,
            n == frame.width * frame.height,
            data@ == frame.data@,
            i <= n,
            pixels@.len() == i,
            i == y * width + x,
            width > 0 ==> x < width,
            forall|j: int| 0 <= j < i ==> #[trigger] pixels@[j] == yuyv_gray_at(width as int, data@, j),
        decreases n - i,
    {
        assert(width > 0) by {
            if width == 0 {
                assert(n == 0) by (nonlinear_arith)
                    requires
                        width == 0,
                        n == width * (frame.height as int),
                ;
            }
        }
        proof {
            lemma_fundamental_div_mod_converse(i as int, width as int, y as int, x as int);
        }
        let row: usize = i - x;
        let pair: usize = x / 2;
        let base: u128 = ((row / 2) as u128 + pair as u128) * 4;
        let v: u8 = if pair < width / 2 && base + 3 < data.len() as u128 {
            if x % 2 == 0 {
                data[base as usize]
            } else {
                data[(base + 2) as usize]
            }
        } else {
            0
        };
        pixels.push(v);
        i = i + 1;
        if x + 1 == width {
            x = 0;
            y = y + 1;
            assert(i == y * width) by (nonlinear_arith)
                requires
                    i == (y - 1) * width + width,
            ;
        } else {
            x = x + 1;
        }
    }
    GrayBuffer { width: frame.width, height: frame.height, pixels }
}

/// The difference at pixel `i` (in row order) of `background`: the absolute
/// difference with the pixel of `current` in the same column and row, or 0
/// where `current` has no such pixel.
pub open spec fn difference_at(background: GrayBuffer, current: GrayBuffer, i: int) -> u8 {
    let w = background.width as int;
    let x = i % w;
    let y = i / w;
    if x < current.width && y < current.height {
        let a = background.pixels@[i] as int;
        let b = current.pixel(x, y) as int;
        (if a >= b {
            a - b
        } else {
            b - a
        }) as u8
    } else {
        0
    }
}

/// The per-pixel absolute difference between a background and the current
/// image, over the background's size.
pub fn frame_difference(background: &GrayBuffer, current: &GrayBuffer) -> (d: GrayBuffer)
    requires
        background.wf(),
        current.wf(),
    ensures
        d.wf(),
        d.width == background.width,
        d.height == background.height,
        forall|i: int| 0 <= i < d.pixels@.len() ==> #[trigger] d.pixels@[i] == difference_at(*background, *current, i),
{
    let width = background.width as usize;
    let n: usize = background.pixels.len();
    let cw = current.width as usize;
    let ch = current.height as usize;
    let clen = current.pixels.len();
    let mut pixels: Vec<u8> = Vec::new();
    let mut i: usize = 0;
    let mut x: usize = 0;
    let mut y: usize = 0;
    while i < n
        invariant
            background.wf(),
            current.wf(),
            width == background.width,
            cw == current.width,
            ch == current.height,
            clen == current.pixels@.len(),
            n == background.pixels@.len(),
            i <= n,
            pixels@.len() == i,
            i == y * width + x,
            width > 0 ==> x < width,
            forall|j: int| 0 <= j < i ==> #[trigger] pixels@[j] == difference_at(*background, *current, j),
        decreases n - i,
    {
        assert(width > 0) by {
            if width == 0 {
                assert(n == 0) by (nonlinear_arith)
                    requires
                        width == 0,
                        n == width * (background.height as int),
                ;
            }
        }
        proof {
            lemma_fundamental_div_mod_converse(i as int, width as int, y as int, x as int);
        }
        let v: u8 = if x < cw && y < ch {
            assert(y * cw + x < ch * cw) by (nonlinear_arith)
                requires
                    x < cw,
                    y < ch,
            ;
            let a = background.pixels[i];
            let b = current.pixels[y * cw + x];
            if a >= b {
                a - b
            } else {
                b - a
            }
        } else {
            0
        };
        pixels.push(v);
        i = i + 1;
        if x + 1 == width {
            x = 0;
            y = y + 1;
            assert(i == y * width) by (nonlinear_arith)
                requires
                    i == (y - 1) * width + width,
            ;
        } else {
            x = x + 1;
        }
    }
    GrayBuffer { width: background.width, height: background.height, pixels }
}

/// The binary mask of a gray image: 255 where a pixel is above `t`, else 0.
pub open spec fn spec_threshold(pixels: Seq<u8>, t: u8) -> Seq<u8> {
    Seq::new(pixels.len(), |i: int| if pixels[i] > t { 255u8 } else { 0u8 })
}

/// Calls `imageproc::contrast::threshold` with `ThresholdType::Binary`:
/// each pixel above `t` becomes 255 and every other pixel 0, as its
/// documentation and source (`threshold_mut`) show.
#[verifier::external_body]
fn threshold_binary(g: &GrayBuffer, t: u8) -> (m: GrayBuffer)
    requires
        g.wf(),
    ensures
        m.width == g.width,
        m.height == g.height,
        m.pixels@ == spec_threshold(g.pixels@, t),
{
    let img = image::GrayImage::from_raw(g.width, g.height, g.pixels.clone()).unwrap();
    let out = imageproc::contrast::threshold(&img, t, imageproc::contrast::ThresholdType::Binary);
    GrayBuffer { width: out.width(), height: out.height(), pixels: out.into_raw() }
}

/// The L-infinity (chessboard) distance between pixels `i` and `j`, in row
/// order, of a `width`-wide image.
pub open spec fn chessboard(width: u32, i: int, j: int) -> int {
    let dx = i % (width as int) - j % (width as int);
    let dy = i / (width as int) - j / (width as int);
    let ax = if dx < 0 { -dx } else { dx };
    let ay = if dy < 0 { -dy } else { dy };
    if ax < ay { ay } else { ax }
}

/// The largest distance imageproc's L-infinity distance transform records:
/// width plus height, but at most 255. A pixel with no pixel of the other
/// kind in the image is given this distance.
pub open spec fn distance_cap(width: u32, height: u32) -> int {
    if width + height < 255 { width + height } else { 255 }
}

/// Whether some pixel within chessboard distance `k` of pixel `i` is
/// background (0), or, when `background` is false, foreground (non-zero).
pub open spec fn near_kind(width: u32, pixels: Seq<u8>, i: int, k: u8, background: bool) -> bool {
    exists|j: int| 0 <= j < pixels.len() && (#[trigger] pixels[j] == 0) == background && chessboard(width, i, j) <= k
}

/// What `imageproc::morphology::erode` with the L-infinity norm and radius
/// `k` gives: a pixel is 0 when its distance to the nearest background pixel,
/// capped at `distance_cap`, is at most `k`, and 255 otherwise.
pub open spec fn eroded(width: u32, height: u32, pixels: Seq<u8>, k: u8) -> Seq<u8> {
    Seq::new(
        pixels.len(),
        |i: int|
            if distance_cap(width, height) <= k || near_kind(width, pixels, i, k, true) {
                0u8
            } else {
                255u8
            },
    )
}

/// Calls `imageproc::morphology::erode` with the L-infinity norm: pixels
/// within distance `k` of a background (0) pixel become 0, the others 255
/// (a distance transform from the background, then a threshold at `k`).
/// The image keeps its size. `requires` leaves out images whose width plus
/// height overflows `u32`, on which the distance transform's cap overflows.
#[verifier::external_body]
fn erode_linf(g: &GrayBuffer, k: u8) -> (m: GrayBuffer)
    requires
        g.wf(),
        g.width + g.height <= u32::MAX,
    ensures
        m.width == g.width,
        m.height == g.height,
        m.pixels@ == eroded(g.width, g.height, g.pixels@, k),
        m.wf(),
{
    let img = image::GrayImage::from_raw(g.width, g.height, g.pixels.clone()).unwrap();
    let out = imageproc::morphology::erode(&img, imageproc::distance_transform::Norm::LInf, k);
    GrayBuffer { width: out.width(), height: out.height(), pixels: out.into_raw() }
}

/// What `imageproc::morphology::dilate` with the L-infinity norm and radius
/// `k` gives: a pixel is 255 when its distance to the nearest foreground
/// (non-zero) pixel, capped at `distance_cap`, is at most `k`, and 0
/// otherwise.
pub open spec fn dilated(width: u32, height: u32, pixels: Seq<u8>, k: u8) -> Seq<u8> {
    Seq::new(
        pixels.len(),
        |i: int|
            if distance_cap(width, height) <= k || near_kind(width, pixels, i, k, false) {
                255u8
            } else {
                0u8
            },
    )
}

/// Calls `imageproc::morphology::dilate` with the L-infinity norm: pixels
/// within distance `k` of a foreground (non-zero) pixel become 255, the
/// others 0 (a distance transform from the foreground, then a threshold at
/// `k`). The image keeps its size. `requires` leaves out images whose width
/// plus height overflows `u32`, as for `erode_linf`.
#[verifier::external_body]
fn dilate_linf(g: &GrayBuffer, k: u8) -> (m: GrayBuffer)
    requires
        g.wf(),
        g.width + g.height <= u32::MAX,
    ensures
        m.width == g.width,
        m.height == g.height,
        m.pixels@ == dilated(g.width, g.height, g.pixels@, k),
        m.wf(),
{
    let img = image::GrayImage::from_raw(g.width, g.height, g.pixels.clone()).unwrap();
    let out = imageproc::morphology::dilate(&img, imageproc::distance_transform::Norm::LInf, k);
    GrayBuffer { width: out.width(), height: out.height(), pixels: out.into_raw() }
}

/// What `imageproc::region_labelling::connected_components` with
/// 8-connectivity and background 0 gives for a `width` by `height` gray
/// image: a label per pixel, 0 for the background.
pub uninterp spec fn component_labels(width: u32, height: u32, pixels: Seq<u8>) -> Seq<u32>;

/// Calls `imageproc::region_labelling::connected_components` with
/// 8-connectivity and background 0. The labels are named, not stated.
/// `requires` leaves out images of 2^32 pixels or more, on which the call
/// panics.
#[verifier::external_body]
fn label_components(g: &GrayBuffer) -> (labels: Vec<u32>)
    requires
        g.wf(),
        g.width * g.height < 0x1_0000_0000,
    ensures
        labels@ == component_labels(g.width, g.height, g.pixels@),
{
    let img = image::GrayImage::from_raw(g.width, g.height, g.pixels.clone()).unwrap();
    let out = imageproc::region_labelling::connected_components(
        &img,
        imageproc::region_labelling::Connectivity::Eight,
        image::Luma([0u8]),
    );
    out.into_raw()
}

/// The radius of the erosion and dilation that clean the motion mask.
pub const MORPHOLOGY_RADIUS: u8 = 3;

/// Whether an image is within what the morphology and labelling steps
/// handle: fewer than 2^32 pixels, and width plus height within `u32`
/// (imageproc panics beyond either).
pub open spec fn fits_morphology(g: GrayBuffer) -> bool {
    &&& g.width * g.height < 0x1_0000_0000
    &&& g.width + g.height <= u32::MAX
}

/// The labels of the moving regions between a background and the current
/// image: their difference, thresholded at `delta_threshold`, eroded and
/// then dilated (radius 3, L-infinity norm), and labelled with
/// 8-connectivity.
pub open spec fn spec_motion_labels(background: GrayBuffer, current: GrayBuffer, delta_threshold: u8) -> Seq<u32> {
    let w = background.width;
    let h = background.height;
    let diff = Seq::new(background.pixels@.len(), |i: int| difference_at(background, current, i));
    let mask = spec_threshold(diff, delta_threshold);
    let cleaned = dilated(w, h, eroded(w, h, mask, MORPHOLOGY_RADIUS), MORPHOLOGY_RADIUS);
    component_labels(w, h, cleaned)
}

/// The labels of the moving regions between a background and the current
/// image.
pub fn motion_labels(background: &GrayBuffer, current: &GrayBuffer, delta_threshold: u8) -> (labels: Vec<u32>)
    requires
        background.wf(),
        current.wf(),
        fits_morphology(*background),
    ensures
        labels@ == spec_motion_labels(*background, *current, delta_threshold),
{
    let diff = frame_difference(background, current);
    assert(diff.pixels@ =~= Seq::new(background.pixels@.len(), |i: int| difference_at(*background, *current, i)));
    let mask = threshold_binary(&diff, delta_threshold);
    assert(mask.wf());
    let eroded_mask = erode_linf(&mask, MORPHOLOGY_RADIUS);
    let cleaned = dilate_linf(&eroded_mask, MORPHOLOGY_RADIUS);
    label_components(&cleaned)
}

/// The area in pixels of the largest moving region between a background
/// and the current image.
pub fn motion_area(background: &GrayBuffer, current: &GrayBuffer, delta_threshold: u8) -> (area: u64)
    requires
        background.wf(),
        current.wf(),
        fits_morphology(*background),
    ensures
        is_largest_area(spec_motion_labels(*background, *current, delta_threshold), area as nat),
{
    let labels = motion_labels(background, current, delta_threshold);
    largest_component_area(&labels)
}

/// How often `label` occurs in `s`.
pub open spec fn occurrences(s: Seq<u32>, label: u32) -> nat
    decreases s.len(),
{
    if s.len() == 0 {
        0
    } else {
        occurrences(s.drop_last(), label) + if s.last() == label {
            1nat
        } else {
            0nat
        }
    }
}

/// Whether `area` is the size of the largest region in a label image:
/// the most occurrences of any label other than 0 (the background), or 0
/// when there is no such label.
pub open spec fn is_largest_area(labels: Seq<u32>, area: nat) -> bool {
    &&& forall|l: u32| l > 0 ==> occurrences(labels, l) <= area
    &&& (area == 0 || exists|l: u32| l > 0 && #[trigger] occurrences(labels, l) == area)
}

/// A label that does not occur has no occurrences.
proof fn lemma_occurrences_absent(s: Seq<u32>, label: u32)
    requires
        forall|i: int| 0 <= i < s.len() ==> s[i] != label,
    ensures
        occurrences(s, label) == 0,
    decreases s.len(),
{
    if s.len() > 0 {
        lemma_occurrences_absent(s.drop_last(), label);
    }
}

/// The size of the largest labelled region, in pixels: the count of the
/// most frequent label other than 0.
pub fn largest_component_area(labels: &Vec<u32>) -> (area: u64)
    ensures
        is_largest_area(labels@, area as nat),
{
    let n = labels.len();
    let mut keys: Vec<u32> = Vec::new();
    let mut counts: Vec<u64> = Vec::new();
    let mut i: usize = 0;
    assert(labels@.take(0) =~= Seq::<u32>::empty());
    while i < n
        invariant
            n == labels@.len(),
            i <= n,
            keys@.len() == counts@.len(),
            forall|a: int, b: int| 0 <= a < b < keys@.len() ==> keys@[a] != keys@[b],
            forall|j: int| 0 <= j < keys@.len() ==> keys@[j] > 0,
            forall|j: int| 0 <= j < keys@.len() ==> #[trigger] counts@[j] == occurrences(labels@.take(i as int), keys@[j]),
            forall|l: u32| l > 0 && !keys@.contains(l) ==> occurrences(labels@.take(i as int), l) == 0,
        decreases n - i,
    {
        let v = labels[i];
        let ghost prefix = labels@.take(i as int);
        let ghost old_keys = keys@;
        proof {
            assert(labels@.take(i as int + 1).drop_last() =~= prefix);
            assert(labels@.take(i as int + 1).last() == v);
        }
        if v > 0 {
            let mut j: usize = 0;
            let m = keys.len();
            while j < m && keys[j] != v
                invariant
                    m == keys@.len(),
                    j <= m,
                    forall|a: int| 0 <= a < j ==> keys@[a] != v,
                decreases m - j,
            {
                j = j + 1;
            }
            if j < m {
                proof {
                    lemma_occurrences_at_most(prefix, v);
                }
                counts.set(j, counts[j] + 1);
                assert(keys@[j as int] == v);
            } else {
                proof {
                    assert(!keys@.contains(v));
                }
                keys.push(v);
                counts.push(1);
                assert(keys@[m as int] == v);
            }
            assert(keys@.contains(v));
        }
        proof {
            assert forall|l: u32| l > 0 && !keys@.contains(l) implies occurrences(
                labels@.take(i as int + 1),
                l,
            ) == 0 by {
                if old_keys.contains(l) {
                    let a = choose|a: int| 0 <= a < old_keys.len() && old_keys[a] == l;
                    assert(keys@[a] == l);
                }
            }
        }
        i = i + 1;
    }
    assert(labels@.take(n as int) =~= labels@);
    let mut best: u64 = 0;
    let mut best_label: u32 = 0;
    let mut k: usize = 0;
    while k < keys.len()
        invariant
            keys@.len() == counts@.len(),
            k <= keys@.len(),
            forall|j: int| 0 <= j < keys@.len() ==> keys@[j] > 0,
            forall|j: int| 0 <= j < keys@.len() ==> #[trigger] counts@[j] == occurrences(labels@, keys@[j]),
            forall|j: int| 0 <= j < k ==> #[trigger] counts@[j] <= best,
            best == 0 || (best_label > 0 && occurrences(labels@, best_label) == best),
        decreases keys@.len() - k,
    {
        if counts[k] > best {
            best = counts[k];
            best_label = keys[k];
        }
        k = k + 1;
    }
    proof {
        assert forall|lab: u32| lab > 0 implies occurrences(labels@, lab) <= best by {
            if keys@.contains(lab) {
                let j = choose|j: int| 0 <= j < keys@.len() && keys@[j] == lab;
                assert(counts@[j] <= best);
            }
        }
        if best != 0 {
            assert(occurrences(labels@, best_label) == best);
        }
    }
    best
}

/// A label occurs at most as often as the sequence is long.
proof fn lemma_occurrences_at_most(s: Seq<u32>, label: u32)
    ensures
        occurrences(s, label) <= s.len(),
    decreases s.len(),
{
    if s.len() > 0 {
        lemma_occurrences_at_most(s.drop_last(), label);
    }
}

/// The size at which a JPEG frame is decoded for analysis: the frame size
/// divided by the decode scale (at least 1), each side at least 1 and made
/// even when above 1.
pub open spec fn spec_decode_side(side: u32, scale: u32) -> u32 {
    let s = if scale < 1 {
        1
    } else {
        scale
    };
    let t = if side / s < 1 {
        1
    } else {
        side / s
    };
    if t % 2 != 0 && t > 1 {
        (t - 1) as u32
    } else {
        t as u32
    }
}

/// The width and height at which a JPEG frame is decoded for analysis.
pub fn decode_dimensions(width: u32, height: u32, scale: u32) -> (d: (u32, u32))
    ensures
        d == (spec_decode_side(width, scale), spec_decode_side(height, scale)),
{
    let s = if scale < 1 {
        1
    } else {
        scale
    };
    let mut w = if width / s < 1 {
        1
    } else {
        width / s
    };
    let mut h = if height / s < 1 {
        1
    } else {
        height / s
    };
    if w % 2 != 0 && w > 1 {
        w = w - 1;
    }
    if h % 2 != 0 && h > 1 {
        h = h - 1;
    }
    (w, h)
}

/// The milliseconds between analysed frames at `fps` frames per second.
pub fn frame_interval_ms(fps: u32) -> (ms: u64)
    requires
        fps > 0,
    ensures
        ms == 1000int / (fps as int),
{
    1000 / fps as u64
}

/// Where the analysis cursor goes when frame `frame_id` is the latest: a
/// frame id below the cursor means the ids restarted, so the cursor goes
/// back to 0 first; a frame newer than the cursor is analysed and becomes
/// the cursor.
pub open spec fn spec_cursor_step(last_frame_id: u64, frame_id: u64) -> (u64, bool) {
    let last = if frame_id < last_frame_id {
        0
    } else {
        last_frame_id
    };
    if frame_id > last {
        (frame_id, true)
    } else {
        (last, false)
    }
}

/// The next analysis cursor, and whether to analyse frame `frame_id`.
pub fn analysis_cursor_step(last_frame_id: u64, frame_id: u64) -> (r: (u64, bool))
    ensures
        r == spec_cursor_step(last_frame_id, frame_id),
{
    let mut last = last_frame_id;
    if frame_id < last {
        last = 0;
    }
    if frame_id > last {
        (frame_id, true)
    } else {
        (last, false)
    }
}

/// What the analysis loop does on one turn: analyse now or not, and how
/// long to sleep afterwards.
#[derive(Debug, Clone, Copy, PartialEq, Eq, Structural)]
pub struct AnalysisPace {
    /// Look at the latest frame now.
    pub analyze: bool,
    /// Nanoseconds to sleep before the next turn.
    pub sleep_nanos: u64,
}

/// The pace of the analysis loop, `elapsed_nanos` after the last analysis
/// with `interval_nanos` between analyses: analyse once the interval has
/// passed and then check again after 10 ms; otherwise sleep a quarter of
/// the time left, but no more than 100 ms.
pub open spec fn spec_analysis_pace(elapsed_nanos: u64, interval_nanos: u64) -> AnalysisPace {
    if elapsed_nanos >= interval_nanos {
        AnalysisPace { analyze: true, sleep_nanos: 10_000_000 }
    } else {
        let quarter = ((interval_nanos - elapsed_nanos) / 4) as u64;
        AnalysisPace {
            analyze: false,
            sleep_nanos: if quarter < 100_000_000 {
                quarter
            } else {
                100_000_000
            },
        }
    }
}

/// The pace of the analysis loop on one turn.
pub fn analysis_pace(elapsed_nanos: u64, interval_nanos: u64) -> (p: AnalysisPace)
    ensures
        p == spec_analysis_pace(elapsed_nanos, interval_nanos),
{
    if elapsed_nanos >= interval_nanos {
        AnalysisPace { analyze: true, sleep_nanos: 10_000_000 }
    } else {
        let quarter = (interval_nanos - elapsed_nanos) / 4;
        AnalysisPace { analyze: false, sleep_nanos: if quarter < 100_000_000 { quarter } else { 100_000_000 } }
    }
}

/// What the analyser does with an event it listens to.
#[derive(Debug, Clone, Copy, PartialEq, Eq, Structural)]
pub enum AnalyzerEventResponse {
    /// Stop analysing: a shutdown was requested.
    Stop,
    /// Warn that analysis may be affected: the camera reported an error.
    WarnCameraError,
    /// Nothing.
    Ignore,
}

/// The response to an event: a shutdown request stops the analyser, a
/// system error of the camera is warned about, anything else is ignored.
pub open spec fn spec_analyzer_event_response(event: DoorcamEvent) -> AnalyzerEventResponse {
    match event {
        DoorcamEvent::ShutdownRequested { .. } => AnalyzerEventResponse::Stop,
        DoorcamEvent::SystemError { component, .. } => if component@ == "camera"@ {
            AnalyzerEventResponse::WarnCameraError
        } else {
            AnalyzerEventResponse::Ignore
        },
        _ => AnalyzerEventResponse::Ignore,
    }
}

/// The response to an event.
pub fn analyzer_event_response(event: &DoorcamEvent) -> (r: AnalyzerEventResponse)
    ensures
        r == spec_analyzer_event_response(*event),
{
    match event {
        DoorcamEvent::ShutdownRequested { .. } => AnalyzerEventResponse::Stop,
        DoorcamEvent::SystemError { component, .. } => {
            let camera = "camera".to_owned();
            if *component == camera {
                AnalyzerEventResponse::WarnCameraError
            } else {
                AnalyzerEventResponse::Ignore
            }
        },
        _ => AnalyzerEventResponse::Ignore,
    }
}

/// State of motion analysis.
#[derive(Debug, Clone)]
pub struct MotionAnalysisMetrics {
    pub background_initialized: bool,
    pub frames_processed: u64,
}

impl Default for MotionAnalysisMetrics {
    fn default() -> (m: Self)
        ensures
            !m.background_initialized,
            m.frames_processed == 0,
    {
        MotionAnalysisMetrics { background_initialized: false, frames_processed: 0 }
    }
}

/// A frame is analysed at most once in a row: right after the cursor
/// moves to a frame, the same frame is not analysed again; and a frame newer
/// than the cursor is always analysed.
pub proof fn law_frame_analysed_once(last_frame_id: u64, frame_id: u64)
    ensures
        !spec_cursor_step(spec_cursor_step(last_frame_id, frame_id).0, frame_id).1,
        frame_id > last_frame_id ==> spec_cursor_step(last_frame_id, frame_id) == (frame_id, true),
{
}


/// Thresholding keeps the image's size and marks exactly the pixels above
/// the threshold, with 255, and clears every other pixel to 0.
pub proof fn law_threshold_marks_pixels_above(pixels: Seq<u8>, t: u8)
    ensures
        spec_threshold(pixels, t).len() == pixels.len(),
        forall|i: int| 0 <= i < pixels.len() ==> (#[trigger] spec_threshold(pixels, t)[i] == 255 <==> pixels[i] > t),
        forall|i: int| 0 <= i < pixels.len() ==> (#[trigger] spec_threshold(pixels, t)[i] == 0 <==> pixels[i] <= t),
{
}

/// The analysis loop analyses exactly when the interval has passed since
/// the last analysis; it never sleeps more than 100 ms, and while waiting
/// it sleeps no more than a quarter of the time left, so it wakes before
/// the next analysis is due.
pub proof fn law_analysis_pace(elapsed_nanos: u64, interval_nanos: u64)
    ensures
        spec_analysis_pace(elapsed_nanos, interval_nanos).analyze <==> elapsed_nanos >= interval_nanos,
        spec_analysis_pace(elapsed_nanos, interval_nanos).sleep_nanos <= 100_000_000,
        elapsed_nanos < interval_nanos ==> 4 * spec_analysis_pace(elapsed_nanos, interval_nanos).sleep_nanos <= (
        interval_nanos - elapsed_nanos),
{
}

/// The analyser stops on a shutdown request and on nothing else, and warns
/// only about system errors of the camera.
pub proof fn law_analyzer_listens(event: DoorcamEvent)
    ensures
        spec_analyzer_event_response(event) == AnalyzerEventResponse::Stop <==> event is ShutdownRequested,
        spec_analyzer_event_response(event) == AnalyzerEventResponse::WarnCameraError <==> (event matches DoorcamEvent::SystemError {
            component,
            ..
        } && component@ == "camera"@),
{
}

/// The cursor never moves back except when frame ids restart below it,
/// and a frame is analysed exactly when it is newer than the cursor or the
/// ids restarted at a frame above 0.
pub proof fn law_cursor_moves_forward(last_frame_id: u64, frame_id: u64)
    ensures
        frame_id >= last_frame_id ==> spec_cursor_step(last_frame_id, frame_id).0 >= last_frame_id,
        spec_cursor_step(last_frame_id, frame_id).1 ==> spec_cursor_step(last_frame_id, frame_id).0 == frame_id,
        spec_cursor_step(last_frame_id, frame_id).1 <==> (frame_id > last_frame_id || (frame_id < last_frame_id
            && frame_id > 0)),
        frame_id == last_frame_id ==> !spec_cursor_step(last_frame_id, frame_id).1,
{
}

} // verus!
