use vstd::prelude::*;

use image::codecs::jpeg::JpegEncoder;
use image::imageops::FilterType;
use rayon::iter::ParallelIterator;
use rayon::slice::ParallelSlice;

verus! {

/// Longest side, in pixels, of an image prepared for analysis.
pub const ANALYSIS_BOUND: u32 = 768;

/// JPEG quality of an image prepared for analysis: low, for size.
pub const ANALYSIS_QUALITY: u8 = 35;

/// Longest side, in pixels, of a thumbnail.
pub const THUMBNAIL_BOUND: u32 = 300;

/// JPEG quality of a thumbnail.
pub const THUMBNAIL_QUALITY: u8 = 90;

/// A decoded image: `width` times `height` pixels of three bytes (red, green,
/// blue), row after row.
#[derive(Clone, Debug)]
pub struct DecodedImage {
    pub width: u32,
    pub height: u32,
    pub pixels: Vec<u8>,
}

impl DecodedImage {
    pub open spec fn wf(&self) -> bool {
        self.pixels@.len() == 3 * self.width * self.height
    }
}

/// An image re-encoded for transport, with the sizes it came from.
#[derive(Clone, Debug)]
pub struct TranscodedImage {
    /// The JPEG encoding.
    pub bytes: Vec<u8>,
    pub width: u32,
    pub height: u32,
    pub source_width: u32,
    pub source_height: u32,
    /// Length in bytes of the input before decoding.
    pub original_len: usize,
}

/// Why an image could not be prepared.
#[derive(Clone, Copy, Debug, PartialEq, Eq, Structural)]
pub enum ImageError {
    /// No known container format matches the bytes.
    UnrecognizedFormat,
    /// The format is known but the data does not decode; `byte_len` is the
    /// length of the input.
    DecodeFailed { byte_len: usize },
    /// The encoder refused the image.
    EncodeFailed,
}

/// Resampling filter for a resize.
#[derive(Clone, Copy, Debug, PartialEq, Eq, Structural)]
pub enum Resampling {
    /// High quality (Lanczos with window 3).
    Lanczos3,
    /// Fast (linear).
    Triangle,
}

/// Whether image's format sniffing recognises the bytes.
pub uninterp spec fn known_format(bytes: Seq<u8>) -> bool;

/// What image decodes the bytes to, as RGB8: width, height and pixel bytes.
pub uninterp spec fn decoded_rgb(bytes: Seq<u8>) -> Option<(u32, u32, Seq<u8>)>;

/// The pixels that image's resize produces from an RGB8 image.
pub uninterp spec fn resampled(
    width: u32,
    height: u32,
    pixels: Seq<u8>,
    new_width: u32,
    new_height: u32,
    filter: Resampling,
) -> Seq<u8>;

/// image's baseline JPEG encoding of an RGB8 image, if it accepts the image.
pub uninterp spec fn jpeg_encoding(width: u32, height: u32, pixels: Seq<u8>, quality: u8) -> Option<
    Seq<u8>,
>;

/// Relies on image::guess_format, which matches the leading bytes against the
/// signatures of the formats it knows.
#[verifier::external_body]
fn sniff_format(bytes: &[u8]) -> (r: bool)
    ensures
        r == known_format(bytes@),
{
    image::guess_format(bytes).is_ok()
}

/// Relies on image::load_from_memory (which sniffs the format the same way
/// and decodes with it) and DynamicImage::to_rgb8, whose buffer holds three
/// bytes per pixel.
#[verifier::external_body]
fn load_rgb(bytes: &[u8]) -> (r: Option<DecodedImage>)
    ensures
        match decoded_rgb(bytes@) {
            Some((w, h, p)) => r matches Some(img) && img.width == w && img.height == h
                && img.pixels@ == p,
            None => r is None,
        },
        r matches Some(img) ==> img.wf(),
{
    match image::load_from_memory(bytes) {
        Ok(img) => {
            let rgb = img.to_rgb8();
            Some(DecodedImage { width: rgb.width(), height: rgb.height(), pixels: rgb.into_raw() })
        },
        Err(_) => None,
    }
}

/// Relies on image::imageops::resize, which returns a buffer of exactly the
/// requested dimensions.
#[verifier::external_body]
fn resize_rgb(img: &DecodedImage, new_width: u32, new_height: u32, filter: Resampling) -> (r:
    DecodedImage)
    requires
        img.wf(),
        3 * new_width * new_height <= usize::MAX,
    ensures
        r.width == new_width,
        r.height == new_height,
        r.pixels@ == resampled(img.width, img.height, img.pixels@, new_width, new_height, filter),
        r.wf(),
{
    let filter = match filter {
        Resampling::Lanczos3 => FilterType::Lanczos3,
        Resampling::Triangle => FilterType::Triangle,
    };
    let source = image::ImageBuffer::<image::Rgb<u8>, &[u8]>::from_raw(
        img.width,
        img.height,
        img.pixels.as_slice(),
    ).unwrap_or_default();
    let out = image::imageops::resize(&source, new_width, new_height, filter);
    DecodedImage { width: out.width(), height: out.height(), pixels: out.into_raw() }
}

/// Relies on image's JpegEncoder::encode for an RGB8 buffer of matching size.
#[verifier::external_body]
fn encode_jpeg(img: &DecodedImage, quality: u8) -> (r: Option<Vec<u8>>)
    requires
        img.wf(),
    ensures
        r is Some <==> jpeg_encoding(img.width, img.height, img.pixels@, quality) is Some,
        r matches Some(b) ==> jpeg_encoding(img.width, img.height, img.pixels@, quality) == Some(
            b@,
        ),
{
    let mut out: Vec<u8> = Vec::new();
    let result = JpegEncoder::new_with_quality(&mut out, quality).encode(
        &img.pixels,
        img.width,
        img.height,
        image::ExtendedColorType::Rgb8,
    );
    match result {
        Ok(()) => Some(out),
        Err(_) => None,
    }
}

/// `short` scaled by `bound / long`, rounded to nearest, at least one.
pub open spec fn scaled_side(short: nat, long: nat, bound: nat) -> nat
    recommends
        long > 0,
{
    let q = (short * bound + long / 2) / long;
    if q == 0 {
        1
    } else {
        q
    }
}

/// The dimensions of an image of `w` by `h` fitted within `bound` on its
/// longer side, keeping the aspect ratio; unchanged when it already fits.
pub open spec fn fit_within(w: nat, h: nat, bound: nat) -> (nat, nat) {
    if w <= bound && h <= bound {
        (w, h)
    } else if w >= h {
        (bound, scaled_side(h, w, bound))
    } else {
        (scaled_side(w, h, bound), bound)
    }
}

pub open spec fn abs_diff(a: int, b: int) -> int {
    if a >= b {
        a - b
    } else {
        b - a
    }
}

proof fn lemma_scaled_side(short: nat, long: nat, bound: nat)
    requires
        short <= long,
        long > bound > 0,
    ensures
        1 <= scaled_side(short, long, bound) <= bound,
        abs_diff((scaled_side(short, long, bound) * long) as int, (short * bound) as int) <= long,
{
    let x = short * bound + long / 2;
    let q = x / long;
    assert(q * long <= x < q * long + long) by (nonlinear_arith)
        requires
            q == x / long,
            long > 0,
    ;
    assert(short * bound <= long * bound) by (nonlinear_arith)
        requires
            short <= long,
    ;
    assert(q <= bound) by (nonlinear_arith)
        requires
            q * long <= x,
            x == short * bound + long / 2,
            short * bound <= long * bound,
            long > 0,
    ;
    let r = scaled_side(short, long, bound);
    let sb = short * bound;
    let half = long / 2;
    assert(half <= long);
    if q == 0 {
        assert(r * long == long);
        assert(q * long == 0) by (nonlinear_arith)
            requires
                q == 0,
        ;
        assert(sb < long);
        assert(abs_diff((r * long) as int, sb as int) == long - sb);
    } else {
        assert(r * long == q * long);
        let ql = q * long;
        assert(ql <= sb + half && sb + half < ql + long);
        assert(abs_diff(ql as int, sb as int) <= long);
    }
}

/// The fitted dimensions lie within the bound, fit it exactly on the longer
/// side when they shrink, and keep the aspect ratio to within one pixel:
/// each side is within one of its exact scaled length.
pub proof fn lemma_fit_within_bounds(w: nat, h: nat, bound: nat)
    requires
        bound > 0,
    ensures
        fit_within(w, h, bound).0 <= bound,
        fit_within(w, h, bound).1 <= bound,
        (w <= bound && h <= bound) ==> fit_within(w, h, bound) == (w, h),
        w > bound || h > bound ==> ({
            let (a, b) = fit_within(w, h, bound);
            &&& (w >= h ==> a == bound && abs_diff((b * w) as int, (h * bound) as int) <= w)
            &&& (w < h ==> b == bound && abs_diff((a * h) as int, (w * bound) as int) <= h)
        }),
{
    if w > bound || h > bound {
        if w >= h {
            lemma_scaled_side(h, w, bound);
        } else {
            lemma_scaled_side(w, h, bound);
        }
    }
}

/// Fitting is idempotent: dimensions that were fitted once are left as they
/// are by a second fit, so re-transcoding keeps the size.
pub proof fn lemma_fit_within_idempotent(w: nat, h: nat, bound: nat)
    requires
        bound > 0,
    ensures
        fit_within(fit_within(w, h, bound).0, fit_within(w, h, bound).1, bound) == fit_within(
            w,
            h,
            bound,
        ),
{
    lemma_fit_within_bounds(w, h, bound);
}

/// The dimensions of a `width` by `height` image fitted within `bound`.
pub fn bounded_dimensions(width: u32, height: u32, bound: u32) -> (r: (u32, u32))
    requires
        bound > 0,
    ensures
        (r.0 as nat, r.1 as nat) == fit_within(width as nat, height as nat, bound as nat),
        r.0 <= bound,
        r.1 <= bound,
{
    proof {
        lemma_fit_within_bounds(width as nat, height as nat, bound as nat);
    }
    if width <= bound && height <= bound {
        (width, height)
    } else if width >= height {
        proof {
            lemma_scaled_side(height as nat, width as nat, bound as nat);
        }
        (bound, scale_side(height, width, bound))
    } else {
        proof {
            lemma_scaled_side(width as nat, height as nat, bound as nat);
        }
        (scale_side(width, height, bound), bound)
    }
}

fn scale_side(short: u32, long: u32, bound: u32) -> (r: u32)
    requires
        short <= long,
        long > bound > 0,
    ensures
        r as nat == scaled_side(short as nat, long as nat, bound as nat),
{
    proof {
        lemma_scaled_side(short as nat, long as nat, bound as nat);
    }
    let s = short as u64;
    let l = long as u64;
    let b = bound as u64;
    assert(s * b <= 0xffff_ffffu64 * 0xffff_ffffu64) by (nonlinear_arith)
        requires
            s <= 0xffff_ffffu64,
            b <= 0xffff_ffffu64,
    ;
    let q = (s * b + l / 2) / l;
    if q == 0 {
        1
    } else {
        q as u32
    }
}

/// A colour channel raised by a tenth, rounded down, held at 255.
pub open spec fn brightened(c: u8) -> u8 {
    if c as int * 11 / 10 > 255 {
        255
    } else {
        (c as int * 11 / 10) as u8
    }
}

pub open spec fn brightened_all(s: Seq<u8>) -> Seq<u8> {
    s.map_values(|c: u8| brightened(c))
}

/// One channel brightened; computed in a wider type, so the value at 255
/// cannot wrap.
pub fn brighten_channel(c: u8) -> (r: u8)
    ensures
        r == brightened(c),
        r as int == if c as int * 11 / 10 > 255 { 255 } else { c as int * 11 / 10 },
{
    let v: u16 = (c as u16) * 11 / 10;
    if v > 255 {
        255
    } else {
        v as u8
    }
}

/// Every channel of a row brightened, in order.
pub fn brighten_row(row: &[u8]) -> (r: Vec<u8>)
    ensures
        r@ == brightened_all(row@),
{
    let mut out: Vec<u8> = Vec::new();
    let mut i: usize = 0;
    while i < row.len()
        invariant
            i <= row@.len(),
            out@ == brightened_all(row@.subrange(0, i as int)),
        decreases row@.len() - i,
    {
        let c = brighten_channel(row[i]);
        out.push(c);
        i = i + 1;
        assert(out@ =~= brightened_all(row@.subrange(0, i as int)));
    }
    assert(row@.subrange(0, i as int) =~= row@);
    out
}

/// The `i`-th run of `n` elements of `s` (the last may be shorter).
pub open spec fn chunk(s: Seq<u8>, n: nat, i: int) -> Seq<u8> {
    let end = if (i + 1) * n <= s.len() {
        (i + 1) * n
    } else {
        s.len() as int
    };
    s.subrange(i * n, end)
}

/// Relies on rayon's par_chunks with map and collect into a Vec: one item per
/// chunk of `row_len` bytes, in the order of the chunks, each the value of
/// brighten_row on its chunk.
#[verifier::external_body]
fn brighten_rows_parallel(pixels: &[u8], row_len: usize) -> (r: Vec<Vec<u8>>)
    requires
        row_len > 0,
    ensures
        r@.len() == (pixels@.len() + row_len - 1) / (row_len as int),
        forall|i: int|
            0 <= i < r@.len() ==> (#[trigger] r@[i])@ == brightened_all(
                chunk(pixels@, row_len as nat, i),
            ),
{
    pixels.par_chunks(row_len).map(|row| brighten_row(row)).collect()
}


/// How many bytes the first `i` runs of `n` cover in a sequence of `len`.
pub open spec fn prefix_end(i: int, n: int, len: int) -> int {
    if i * n <= len {
        i * n
    } else {
        len
    }
}

/// Appends the bytes of `part` to `out`.
fn append_bytes(out: &mut Vec<u8>, part: &Vec<u8>)
    ensures
        final(out)@ == old(out)@ + part@,
{
    let mut j: usize = 0;
    while j < part.len()
        invariant
            j <= part@.len(),
            out@ == old(out)@ + part@.subrange(0, j as int),
        decreases part@.len() - j,
    {
        out.push(part[j]);
        j = j + 1;
        assert(out@ =~= old(out)@ + part@.subrange(0, j as int));
    }
    assert(part@.subrange(0, j as int) =~= part@);
}

/// The image with every channel raised by a tenth and held at 255; rows are
/// brightened in parallel and kept in order.
pub fn enhance_image(img: &DecodedImage) -> (r: DecodedImage)
    requires
        img.wf(),
    ensures
        r.width == img.width,
        r.height == img.height,
        r.pixels@ == brightened_all(img.pixels@),
        r.wf(),
{
    let len = img.pixels.len();
    if len == 0 {
        assert(brightened_all(img.pixels@) =~= Seq::<u8>::empty());
        return DecodedImage { width: img.width, height: img.height, pixels: Vec::new() };
    }
    let ghost w = img.width as int;
    let ghost h = img.height as int;
    assert(3 * w <= 3 * w * h) by (nonlinear_arith)
        requires
            3 * w * h > 0,
            w >= 0,
            h >= 0,
    ;
    let row_len: usize = 3 * (img.width as usize);
    let rows = brighten_rows_parallel(img.pixels.as_slice(), row_len);
    let ghost n = row_len as int;
    let ghost q = rows@.len() as int;
    assert(q * n >= len && (q - 1) * n < len) by (nonlinear_arith)
        requires
            q == (len + n - 1) / n,
            n > 0,
    ;
    let mut out: Vec<u8> = Vec::new();
    let mut i: usize = 0;
    while i < rows.len()
        invariant
            0 <= i <= q,
            q == rows@.len(),
            n == row_len,
            n > 0,
            len == img.pixels@.len(),
            q * n >= len,
            (q - 1) * n < len,
            out@ == brightened_all(img.pixels@.subrange(0, prefix_end(i as int, n, len as int))),
            forall|k: int|
                0 <= k < rows@.len() ==> (#[trigger] rows@[k])@ == brightened_all(
                    chunk(img.pixels@, row_len as nat, k),
                ),
        decreases q - i,
    {
        assert(i * n <= (q - 1) * n) by (nonlinear_arith)
            requires
                i <= q - 1,
                n > 0,
        ;
        assert((i + 1) * n == i * n + n) by (nonlinear_arith);
        append_bytes(&mut out, &rows[i]);
        let ghost s = img.pixels@;
        let ghost end = prefix_end(i + 1, n, len as int);
        assert(s.subrange(0, end) =~= s.subrange(0, prefix_end(i as int, n, len as int)) + chunk(
            s,
            row_len as nat,
            i as int,
        ));
        assert(out@ =~= brightened_all(s.subrange(0, end)));
        i = i + 1;
    }
    assert(img.pixels@.subrange(0, prefix_end(i as int, n, len as int)) =~= img.pixels@);
    DecodedImage { width: img.width, height: img.height, pixels: out }
}

/// The pixels of an image fitted within `bound`: the input itself when it
/// already fits, else resampled with `filter`.
pub open spec fn fitted_pixels(w: u32, h: u32, p: Seq<u8>, bound: u32, filter: Resampling) -> Seq<
    u8,
> {
    let (nw, nh) = fit_within(w as nat, h as nat, bound as nat);
    if nw == w && nh == h {
        p
    } else {
        resampled(w, h, p, nw as u32, nh as u32, filter)
    }
}

/// `r` is what transcoding a decoded `w` by `h` image with pixels `p` gives:
/// the image fitted within the analysis bound with the Lanczos filter and
/// encoded as JPEG at the analysis quality, or `EncodeFailed` where the
/// encoder refuses it.
pub open spec fn transcoded_from(
    r: Result<TranscodedImage, ImageError>,
    w: u32,
    h: u32,
    p: Seq<u8>,
    original_len: usize,
) -> bool {
    let (nw, nh) = fit_within(w as nat, h as nat, ANALYSIS_BOUND as nat);
    match jpeg_encoding(
        nw as u32,
        nh as u32,
        fitted_pixels(w, h, p, ANALYSIS_BOUND, Resampling::Lanczos3),
        ANALYSIS_QUALITY,
    ) {
        Some(b) => r matches Ok(t) && t.bytes@ == b && t.width == nw && t.height == nh
            && t.source_width == w && t.source_height == h && t.original_len == original_len,
        None => r == Err::<TranscodedImage, ImageError>(ImageError::EncodeFailed),
    }
}

/// Fits `img` within `bound`, resampling with `filter` only where it does not
/// fit already.
fn fit_image(img: &DecodedImage, bound: u32, filter: Resampling) -> (r: Option<DecodedImage>)
    requires
        img.wf(),
        0 < bound <= ANALYSIS_BOUND,
    ensures
        fit_within(img.width as nat, img.height as nat, bound as nat) == (
            img.width as nat,
            img.height as nat,
        ) ==> r is None,
        r matches Some(f) ==> f.wf() && (f.width as nat, f.height as nat) == fit_within(
            img.width as nat,
            img.height as nat,
            bound as nat,
        ) && f.pixels@ == fitted_pixels(img.width, img.height, img.pixels@, bound, filter),
        r is None ==> fit_within(img.width as nat, img.height as nat, bound as nat) == (
            img.width as nat,
            img.height as nat,
        ),
{
    let (nw, nh) = bounded_dimensions(img.width, img.height, bound);
    if nw == img.width && nh == img.height {
        None
    } else {
        assert(3 * nw * nh <= 3 * 768 * 768) by (nonlinear_arith)
            requires
                nw <= 768,
                nh <= 768,
        ;
        Some(resize_rgb(img, nw, nh, filter))
    }
}

/// Prepares a decoded image for analysis: fitted within the analysis bound
/// and encoded as JPEG at the analysis quality.
pub fn transcode_decoded(img: &DecodedImage, original_len: usize) -> (r: Result<
    TranscodedImage,
    ImageError,
>)
    requires
        img.wf(),
    ensures
        transcoded_from(r, img.width, img.height, img.pixels@, original_len),
{
    let fitted = fit_image(img, ANALYSIS_BOUND, Resampling::Lanczos3);
    let (encoded, width, height) = match &fitted {
        Some(f) => (encode_jpeg(f, ANALYSIS_QUALITY), f.width, f.height),
        None => (encode_jpeg(img, ANALYSIS_QUALITY), img.width, img.height),
    };
    match encoded {
        Some(bytes) => Ok(
            TranscodedImage {
                bytes,
                width,
                height,
                source_width: img.width,
                source_height: img.height,
                original_len,
            },
        ),
        None => Err(ImageError::EncodeFailed),
    }
}

/// Decodes image bytes of any format that sniffing recognises, as RGB8.
pub fn decode_image(raw: &[u8]) -> (r: Result<DecodedImage, ImageError>)
    ensures
        !known_format(raw@) ==> r == Err::<DecodedImage, ImageError>(
            ImageError::UnrecognizedFormat,
        ),
        known_format(raw@) ==> match decoded_rgb(raw@) {
            Some((w, h, p)) => r matches Ok(img) && img.width == w && img.height == h
                && img.pixels@ == p,
            None => r == Err::<DecodedImage, ImageError>(
                ImageError::DecodeFailed { byte_len: raw@.len() as usize },
            ),
        },
        r matches Ok(img) ==> img.wf(),
{
    if !sniff_format(raw) {
        return Err(ImageError::UnrecognizedFormat);
    }
    match load_rgb(raw) {
        Some(img) => Ok(img),
        None => Err(ImageError::DecodeFailed { byte_len: raw.len() }),
    }
}

/// `r` is what transcoding `raw` gives: `UnrecognizedFormat` where sniffing
/// fails, `DecodeFailed` with the input length where decoding fails, else the
/// transcoded decoded image.
pub open spec fn transcode_outcome(raw: Seq<u8>, r: Result<TranscodedImage, ImageError>) -> bool {
    if !known_format(raw) {
        r == Err::<TranscodedImage, ImageError>(ImageError::UnrecognizedFormat)
    } else {
        match decoded_rgb(raw) {
            Some((w, h, p)) => transcoded_from(r, w, h, p, raw.len() as usize),
            None => r == Err::<TranscodedImage, ImageError>(
                ImageError::DecodeFailed { byte_len: raw.len() as usize },
            ),
        }
    }
}

/// Decodes, fits and re-encodes raw image bytes for analysis.
pub fn transcode(raw: &[u8]) -> (r: Result<TranscodedImage, ImageError>)
    ensures
        transcode_outcome(raw@, r),
{
    match decode_image(raw) {
        Ok(img) => transcode_decoded(&img, raw.len()),
        Err(e) => Err(e),
    }
}

/// A small preview: the image fitted within the thumbnail bound with the fast
/// filter, brightened, and encoded as JPEG at high quality.
pub fn make_thumbnail(img: &DecodedImage) -> (r: Result<Vec<u8>, ImageError>)
    requires
        img.wf(),
    ensures
        ({
            let (tw, th) = fit_within(img.width as nat, img.height as nat, THUMBNAIL_BOUND as nat);
            let p = brightened_all(
                fitted_pixels(img.width, img.height, img.pixels@, THUMBNAIL_BOUND, Resampling::Triangle),
            );
            match jpeg_encoding(tw as u32, th as u32, p, THUMBNAIL_QUALITY) {
                Some(b) => r matches Ok(v) && v@ == b,
                None => r == Err::<Vec<u8>, ImageError>(ImageError::EncodeFailed),
            }
        }),
{
    let fitted = fit_image(img, THUMBNAIL_BOUND, Resampling::Triangle);
    let enhanced = match &fitted {
        Some(f) => enhance_image(f),
        None => enhance_image(img),
    };
    match encode_jpeg(&enhanced, THUMBNAIL_QUALITY) {
        Some(bytes) => Ok(bytes),
        None => Err(ImageError::EncodeFailed),
    }
}

} // verus!
