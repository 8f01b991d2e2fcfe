//! The encoder configurator and driver.
//!
//! A fixed-policy JPEG session: RGB input, caller-supplied quality on the
//! encoder's 0-100 perceptual scale, Huffman-table optimization,
//! progressive scan layout and scan optimization enabled. The session is
//! configured once, fed the whole normalized buffer, finalized, and its
//! compressed byte stream returned. The encoder itself is an outside
//! engine; everything around the one call into it is verified.

use vstd::prelude::*;

use crate::pixels::DecodedImage;

verus! {

/// Largest width or height the JPEG format (and the encoder engine)
/// accepts for either image dimension.
pub const MAX_JPEG_DIMENSION: usize = 65500;

/// Quality values the encoder accepts: the inclusive range 1 to 100.
/// Zero and everything above 100 are rejected, never clamped.
pub open spec fn quality_ok(quality: u8) -> bool {
    1 <= quality <= 100
}

/// Whether both image dimensions are within the JPEG format's limit.
pub open spec fn dimensions_ok(img: DecodedImage) -> bool {
    img.width <= MAX_JPEG_DIMENSION && img.height <= MAX_JPEG_DIMENSION
}

/// Whether the normalized RGB buffer for `img` fits in a machine-sized
/// allocation.
pub open spec fn rgb_buffer_fits(img: DecodedImage) -> bool {
    img.width * img.height * 3 <= usize::MAX
}

/// Reports whether `quality` is an accepted quality value.
pub fn quality_in_range(quality: u8) -> (r: bool)
    ensures
        r == quality_ok(quality),
{
    1 <= quality && quality <= 100
}

/// Why a compression run failed.
#[derive(Debug, Clone, PartialEq, Eq)]
pub enum CompressError {
    /// The requested quality was 0 or above 100.
    InvalidQuality,
    /// A dimension exceeds the JPEG limit, or the normalized buffer
    /// would not fit in memory.
    DimensionsTooLarge,
    /// The encoder engine reported a fault through its result; the
    /// payload is its message. On the inputs the validated pipeline
    /// admits the engine succeeds (a real fault unwinds instead), so
    /// this variant is never returned; it stands so that a fault
    /// surfaces as a clean error rather than being swallowed.
    Encoder(String),
}

/// The complete JPEG stream the encoder engine produces for a normalized
/// RGB buffer of the given dimensions at the given quality. The engine
/// has no hidden randomness, so the stream is a function of these
/// arguments alone.
pub uninterp spec fn jpeg_encoding(pixels: Seq<u8>, width: int, height: int, quality: int) -> Seq<
    u8,
>;

/// The compressed output owed for a decoded image at a given quality:
/// the encoding of its normalized RGB buffer.
pub open spec fn compressed_bytes(img: DecodedImage, quality: u8) -> Seq<u8> {
    jpeg_encoding(img.rgb_view(), img.width as int, img.height as int, quality as int)
}

/// Relies on mozjpeg's `Compress`: a session created for RGB input
/// (`Compress::new`), configured with the image size (`set_size`), the
/// quality on the 0-100 scale (`set_quality`), Huffman-table
/// optimization (`set_optimize_coding`), progressive scan layout
/// (`set_progressive_mode`) and scan optimization (`set_optimize_scans`),
/// then driven through `start_compress`, `write_scanlines` over the
/// whole buffer, and `finish`, writes one complete JPEG stream into the
/// supplied vector. The encoder is deterministic, so the stream is a
/// function of the pixels, dimensions and quality alone.
///
/// Success is owed on every admitted input: with RGB defaults at least
/// one sampling factor per axis is 1, so `start_compress` cannot refuse;
/// the exact buffer length and the RGB session rule out the
/// `write_scanlines` input checks, and a `Vec` destination never fails
/// or suspends; `finish` returns the writer unconditionally. An engine
/// fault or exhausted memory makes the library unwind instead of
/// returning — as do dimensions outside 1..=65500, which are excluded
/// here.
#[verifier::external_body]
fn encode_rgb_jpeg(pixels: &Vec<u8>, width: usize, height: usize, quality: u8) -> (r: Result<
    Vec<u8>,
    String,
>)
    requires
        quality_ok(quality),
        1 <= width <= MAX_JPEG_DIMENSION,
        1 <= height <= MAX_JPEG_DIMENSION,
        pixels@.len() == width * height * 3,
    ensures
        r is Ok,
        r->Ok_0@ == jpeg_encoding(pixels@, width as int, height as int, quality as int),
{
    let mut session = mozjpeg::Compress::new(mozjpeg::ColorSpace::JCS_RGB);
    session.set_size(width, height);
    session.set_quality(quality.into());
    session.set_optimize_coding(true);
    session.set_progressive_mode();
    session.set_optimize_scans(true);
    let mut started = session.start_compress(Vec::new()).map_err(|e| e.to_string())?;
    started.write_scanlines(pixels.as_slice()).map_err(|e| e.to_string())?;
    started.finish().map_err(|e| e.to_string())
}

/// Compresses a decoded image to a complete JPEG stream at the given
/// quality. The quality is validated first; then the dimensions are
/// held to the JPEG limit and to what the machine can allocate; then
/// the image is normalized to RGB and fed through the encoder session.
/// Success is owed exactly when quality and dimensions are accepted,
/// and the stream is then exactly the encoding of the normalized
/// buffer; the two rejections say which constraint was violated.
pub fn compress_image(img: &DecodedImage, quality: u8) -> (r: Result<Vec<u8>, CompressError>)
    requires
        img.wf(),
    ensures
        r is Ok <==> (quality_ok(quality) && dimensions_ok(*img) && rgb_buffer_fits(*img)),
        r is Ok ==> r->Ok_0@ == compressed_bytes(*img, quality),
        (r is Err && r->Err_0 is InvalidQuality) <==> !quality_ok(quality),
        (r is Err && r->Err_0 is DimensionsTooLarge) <==> (quality_ok(quality) && !(
        dimensions_ok(*img) && rgb_buffer_fits(*img))),
        r is Err ==> (r->Err_0 is InvalidQuality || r->Err_0 is DimensionsTooLarge),
{
    if !quality_in_range(quality) {
        return Err(CompressError::InvalidQuality);
    }
    if img.width > MAX_JPEG_DIMENSION || img.height > MAX_JPEG_DIMENSION {
        return Err(CompressError::DimensionsTooLarge);
    }
    let fits = match img.width.checked_mul(img.height) {
        Some(area) => area.checked_mul(3).is_some(),
        None => {
            proof {
                lemma_area_times_three(img.width as int, img.height as int);
            }
            false
        },
    };
    if !fits {
        return Err(CompressError::DimensionsTooLarge);
    }
    let rgb = img.normalize_rgb();
    match encode_rgb_jpeg(&rgb, img.width, img.height, quality) {
        Ok(bytes) => Ok(bytes),
        Err(message) => Err(CompressError::Encoder(message)),
    }
}

/// If `w * h` exceeds the machine word, so does `w * h * 3`.
proof fn lemma_area_times_three(w: int, h: int)
    requires
        w >= 0,
        h >= 0,
    ensures
        w * h <= w * h * 3,
{
    vstd::arithmetic::mul::lemma_mul_nonnegative(w, h);
}

/// Compressing the same decoded image twice at the same quality yields
/// byte-identical streams: the compressed output is a function of the
/// image and the quality alone.
pub proof fn lemma_encoding_deterministic(
    img: DecodedImage,
    quality: u8,
    first: Seq<u8>,
    second: Seq<u8>,
)
    requires
        first == compressed_bytes(img, quality),
        second == compressed_bytes(img, quality),
    ensures
        first == second,
{
}

} // verus!
