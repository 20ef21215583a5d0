//! Raster decode, resize and JPEG encode, built on the `image` crate behind
//! trusted wrappers, plus the candidate validation and rendering shared by
//! every decode chain.
//!
//! The pixel work — decoding, resampling, entropy coding — belongs to the
//! `image` crate; everything that decides (which plan, which dimensions,
//! which candidate) is verified here.

use vstd::prelude::*;

use crate::locator::{locate_embedded_candidates, spec_candidate_wf, EmbeddedJpegCandidate};
use crate::scale::{
    fit_within, plan_scale, spec_fit_dims, spec_scale_plan, ScalePlan,
    TWO_PASS_INTERMEDIATE_DIMENSION,
};

verus! {

/// Minimum pixel dimension an embedded preview must reach on at least one
/// axis to be usable; anything smaller is an embedded micro-thumbnail.
pub const MIN_USABLE_PREVIEW_DIMENSION: u32 = 256;

#[verifier::external_type_specification]
#[verifier::external_body]
pub struct ExDynamicImage(image::DynamicImage);

/// The pixel dimensions of the image the `image` crate decodes from
/// `bytes`, or `None` when the bytes do not decode. Decoding is a pure
/// function of the bytes.
pub uninterp spec fn spec_decoded_dims(bytes: Seq<u8>) -> Option<(u32, u32)>;

/// Whether a failed decode of `bytes` is an unsupported-format failure, as
/// opposed to corrupt data in a recognized format.
pub uninterp spec fn spec_decode_unsupported(bytes: Seq<u8>) -> bool;

/// The buffer opens with the JPEG start-of-image marker, as every buffer
/// the encoder produces does.
pub open spec fn spec_jpeg_signature(b: Seq<u8>) -> bool {
    b.len() >= 2 && b[0] == crate::locator::JPEG_MARKER_PREFIX && b[1] == crate::locator::JPEG_SOI
}

/// Why a raster buffer failed to decode.
#[derive(Clone, Copy, PartialEq, Eq, Structural, Debug)]
pub enum RasterDecodeFailure {
    /// The decoder does not recognize the format.
    UnsupportedFormat,
    /// The format was recognized but the data did not decode.
    CorruptData,
}

/// A decoded raster image: the crate's opaque pixel buffer together with
/// its dimensions. The fields are kept in step by the wrappers in this
/// module, which are the only code that constructs one.
pub struct RasterImage {
    handle: image::DynamicImage,
    width: u32,
    height: u32,
}

impl RasterImage {
    /// The decoded image's width in pixels.
    pub closed spec fn spec_width(&self) -> u32 {
        self.width
    }

    /// The decoded image's height in pixels.
    pub closed spec fn spec_height(&self) -> u32 {
        self.height
    }
}

/// Why a derivative could not be generated from a source buffer.
#[derive(Clone, Copy, PartialEq, Eq, Structural, Debug)]
pub enum DecodeError {
    /// The generic decoder does not recognize the format.
    UnsupportedFormat,
    /// The data did not decode in its recognized format.
    CorruptData,
    /// The source decoded to an image with a zero dimension.
    ZeroDimension,
    /// The JPEG encoder failed on the scaled image.
    EncodeFailed,
    /// Every embedded-preview candidate was rejected.
    NoUsablePreview,
}

/// Relies on `image::load_from_memory` and `DynamicImage::{width, height}`:
/// a successful decode carries the decoded image's pixel dimensions, which
/// are a function of the bytes alone, and `ImageError::Unsupported` is the
/// unsupported-format failure.
#[verifier::external_body]
pub(crate) fn decode_raster(bytes: &[u8]) -> (r: Result<RasterImage, RasterDecodeFailure>)
    ensures
        match r {
            Ok(img) => spec_decoded_dims(bytes@) == Some((img.spec_width(), img.spec_height())),
            Err(f) => spec_decoded_dims(bytes@) is None && (f == RasterDecodeFailure::UnsupportedFormat
                <==> spec_decode_unsupported(bytes@)),
        },
{
    match image::load_from_memory(bytes) {
        Ok(handle) => {
            let width = handle.width();
            let height = handle.height();
            Ok(RasterImage { handle, width, height })
        },
        Err(image::ImageError::Unsupported(_)) => Err(RasterDecodeFailure::UnsupportedFormat),
        Err(_) => Err(RasterDecodeFailure::CorruptData),
    }
}

/// Relies on `DynamicImage::resize_exact`: the result has exactly the
/// requested dimensions. A fast pass uses the triangle filter, a quality
/// pass the Catmull-Rom filter.
#[verifier::external_body]
fn resize_raster(img: &RasterImage, width: u32, height: u32, fast: bool) -> (r: RasterImage)
    requires
        width >= 1,
        height >= 1,
    ensures
        r.width == width,
        r.height == height,
{
    let filter = if fast {
        image::imageops::FilterType::Triangle
    } else {
        image::imageops::FilterType::CatmullRom
    };
    let handle = img.handle.resize_exact(width, height, filter);
    RasterImage { handle, width, height }
}

/// Relies on `JpegEncoder::new_with_quality` with
/// `DynamicImage::write_with_encoder`, and on `image::load_from_memory`: a
/// successfully encoded JPEG decodes back to an image of the encoded
/// image's dimensions. Success depends on the dimensions alone: the
/// encoder converts every colour type internally, a byte-buffer writer
/// cannot fail, and the only error is a dimension outside the JPEG range
/// of 1 to 65535. A produced buffer opens with the start-of-image marker,
/// which the encoder writes first.
#[verifier::external_body]
fn encode_jpeg(img: &RasterImage, quality: u8) -> (r: Option<Vec<u8>>)
    requires
        1 <= quality <= 100,
    ensures
        match r {
            Some(out) => spec_decoded_dims(out@) == Some((img.width, img.height))
                && spec_jpeg_signature(out@),
            None => true,
        },
        r is Some <==> (1 <= img.width <= 65535 && 1 <= img.height <= 65535),
{
    let mut out: Vec<u8> = Vec::new();
    let encoder = image::codecs::jpeg::JpegEncoder::new_with_quality(&mut out, quality);
    match img.handle.write_with_encoder(encoder) {
        Ok(()) => Some(out),
        Err(_) => None,
    }
}

/// Relies on `RgbImage::from_raw`: a buffer of exactly `3 * width * height`
/// bytes yields an image of those dimensions.
#[verifier::external_body]
pub(crate) fn raster_from_rgb8(width: u32, height: u32, data: Vec<u8>) -> (r: Option<RasterImage>)
    ensures
        data@.len() == 3 * width * height ==> match r {
            Some(img) => img.spec_width() == width && img.spec_height() == height,
            None => false,
        },
{
    match image::RgbImage::from_raw(width, height, data) {
        Some(buf) => Some(
            RasterImage { handle: image::DynamicImage::ImageRgb8(buf), width, height },
        ),
        None => None,
    }
}

/// Re-encodes a decoded image as a JPEG at `quality` without resizing.
/// Succeeds exactly when both dimensions lie in the JPEG range.
pub fn reencode_jpeg(img: &RasterImage, quality: u8) -> (r: Option<Vec<u8>>)
    requires
        1 <= quality <= 100,
    ensures
        match r {
            Some(out) => spec_decoded_dims(out@) == Some((img.spec_width(), img.spec_height()))
                && spec_jpeg_signature(out@),
            None => true,
        },
        r is Some <==> (1 <= img.spec_width() <= 65535 && 1 <= img.spec_height() <= 65535),
{
    encode_jpeg(img, quality)
}

/// The dimensions of this image.
pub fn raster_dimensions(img: &RasterImage) -> (dims: (u32, u32))
    ensures
        dims == (img.spec_width(), img.spec_height()),
{
    (img.width, img.height)
}

/// The dimensions the shared scaling policy produces for a source of
/// `width` by `height` pixels and a bounding dimension `bound`: small
/// sources pass through unresized, very large ones go through the
/// intermediate two-pass size, everything else fits the bound directly.
pub open spec fn spec_policy_output_dims(width: u32, height: u32, bound: u32) -> (u32, u32)
    recommends
        width >= 1,
        height >= 1,
        bound >= 1,
{
    match spec_scale_plan(width, height) {
        ScalePlan::PassThrough => (width, height),
        ScalePlan::SinglePass => spec_fit_dims(width, height, bound),
        ScalePlan::TwoPass => {
            let mid = spec_fit_dims(width, height, TWO_PASS_INTERMEDIATE_DIMENSION);
            spec_fit_dims(mid.0, mid.1, bound)
        },
    }
}

/// Scales a decoded image into `bound` by the shared policy and encodes it
/// as a JPEG at `quality`.
pub fn render_with_policy(img: RasterImage, bound: u32, quality: u8) -> (r: Result<
    Vec<u8>,
    DecodeError,
>)
    requires
        img.spec_width() >= 1,
        img.spec_height() >= 1,
        bound >= 1,
        1 <= quality <= 100,
    ensures
        match r {
            Ok(out) => spec_decoded_dims(out@) == Some(
                spec_policy_output_dims(img.spec_width(), img.spec_height(), bound),
            ) && spec_jpeg_signature(out@),
            Err(e) => e == DecodeError::EncodeFailed,
        },
        bound <= 65535 ==> r is Ok,
{
    let plan = plan_scale(img.width, img.height);
    let scaled = match plan {
        ScalePlan::PassThrough => img,
        ScalePlan::SinglePass => {
            let dims = fit_within(img.width, img.height, bound);
            resize_raster(&img, dims.0, dims.1, false)
        },
        ScalePlan::TwoPass => {
            let mid = fit_within(img.width, img.height, TWO_PASS_INTERMEDIATE_DIMENSION);
            let intermediate = resize_raster(&img, mid.0, mid.1, true);
            let dims = fit_within(mid.0, mid.1, bound);
            resize_raster(&intermediate, dims.0, dims.1, false)
        },
    };
    match encode_jpeg(&scaled, quality) {
        Some(out) => Ok(out),
        None => Err(DecodeError::EncodeFailed),
    }
}

/// Decodes a raster buffer and re-encodes it as a JPEG within
/// `max_dimension` at `jpeg_quality`, following the shared scaling policy.
pub fn scale_jpeg_bytes(jpeg: &[u8], max_dimension: u32, jpeg_quality: u8) -> (r: Result<
    Vec<u8>,
    DecodeError,
>)
    requires
        max_dimension >= 1,
        1 <= jpeg_quality <= 100,
    ensures
        match r {
            Ok(out) => match spec_decoded_dims(jpeg@) {
                Some(dims) => dims.0 >= 1 && dims.1 >= 1 && spec_decoded_dims(out@) == Some(
                    spec_policy_output_dims(dims.0, dims.1, max_dimension),
                ) && spec_jpeg_signature(out@),
                None => false,
            },
            Err(e) => match spec_decoded_dims(jpeg@) {
                Some(dims) => if dims.0 == 0 || dims.1 == 0 {
                    e == DecodeError::ZeroDimension
                } else {
                    e == DecodeError::EncodeFailed
                },
                None => e == DecodeError::UnsupportedFormat || e == DecodeError::CorruptData,
            },
        },
        (max_dimension <= 65535 && match spec_decoded_dims(jpeg@) {
            Some(dims) => dims.0 >= 1 && dims.1 >= 1,
            None => false,
        }) ==> r is Ok,
{
    match decode_raster(jpeg) {
        Ok(img) => {
            let dims = raster_dimensions(&img);
            if dims.0 == 0 || dims.1 == 0 {
                return Err(DecodeError::ZeroDimension);
            }
            render_with_policy(img, max_dimension, jpeg_quality)
        },
        Err(RasterDecodeFailure::UnsupportedFormat) => Err(DecodeError::UnsupportedFormat),
        Err(RasterDecodeFailure::CorruptData) => Err(DecodeError::CorruptData),
    }
}

} // verus!

// === Candidate validation and embedded-preview extraction ===================

verus! {

/// Whether an embedded candidate is usable: its bytes decode, both
/// dimensions are nonzero, and at least one reaches the usable floor.
pub open spec fn spec_candidate_usable(b: Seq<u8>, c: EmbeddedJpegCandidate) -> bool {
    match spec_decoded_dims(b.subrange(c.start as int, c.end as int)) {
        Some(dims) => dims.0 >= 1 && dims.1 >= 1 && (dims.0 >= MIN_USABLE_PREVIEW_DIMENSION
            || dims.1 >= MIN_USABLE_PREVIEW_DIMENSION),
        None => false,
    }
}

/// Decodes candidates in order and returns the first usable one, or `None`
/// when every candidate is rejected.
fn select_usable_candidate(data: &[u8], cands: &Vec<EmbeddedJpegCandidate>) -> (r: Option<
    RasterImage,
>)
    requires
        forall|k: int| 0 <= k < cands@.len() ==> spec_candidate_wf(data@, #[trigger] cands@[k]),
    ensures
        match r {
            Some(img) => img.spec_width() >= 1 && img.spec_height() >= 1 && exists|k: int|
                0 <= k < cands@.len() && spec_candidate_usable(data@, #[trigger] cands@[k])
                    && spec_decoded_dims(
                    data@.subrange(cands@[k].start as int, cands@[k].end as int),
                ) == Some((img.spec_width(), img.spec_height())) && forall|j: int|
                    0 <= j < k ==> !spec_candidate_usable(data@, #[trigger] cands@[j]),
            None => forall|k: int|
                0 <= k < cands@.len() ==> !spec_candidate_usable(data@, #[trigger] cands@[k]),
        },
{
    let n = cands.len();
    let mut k: usize = 0;
    while k < n
        invariant
            k <= n,
            n == cands@.len(),
            forall|j: int| 0 <= j < cands@.len() ==> spec_candidate_wf(data@, #[trigger] cands@[j]),
            forall|j: int| 0 <= j < k ==> !spec_candidate_usable(data@, #[trigger] cands@[j]),
        decreases n - k,
    {
        let c = cands[k];
        let slice = vstd::slice::slice_subrange(data, c.start, c.end);
        match decode_raster(slice) {
            Ok(img) => {
                let dims = raster_dimensions(&img);
                if dims.0 >= 1 && dims.1 >= 1 && (dims.0 >= MIN_USABLE_PREVIEW_DIMENSION
                    || dims.1 >= MIN_USABLE_PREVIEW_DIMENSION) {
                    return Some(img);
                }
            },
            Err(_) => {},
        }
        k = k + 1;
    }
    None
}

/// Locates embedded-preview candidates for a RAW buffer, validates them in
/// order, and renders the first usable one into `bound` at `quality` by the
/// shared scaling policy. `Err(NoUsablePreview)` comes exactly when no
/// located candidate decodes to a usable image.
pub fn extract_embedded_preview(data: &[u8], ext_lower: &str, bound: u32, quality: u8) -> (r:
    Result<Vec<u8>, DecodeError>)
    requires
        bound >= 1,
        1 <= quality <= 100,
    ensures
        match r {
            Ok(out) => spec_jpeg_signature(out@) && exists|c: EmbeddedJpegCandidate|
                #[trigger] crate::locator::spec_located_multiset(data@, ext_lower@).contains(c)
                    && spec_candidate_usable(data@, c) && match spec_decoded_dims(
                    data@.subrange(c.start as int, c.end as int),
                ) {
                    Some(d) => spec_decoded_dims(out@) == Some(
                        spec_policy_output_dims(d.0, d.1, bound),
                    ),
                    None => false,
                },
            Err(e) => (e == DecodeError::NoUsablePreview || e == DecodeError::EncodeFailed) && (e
                == DecodeError::NoUsablePreview <==> forall|c: EmbeddedJpegCandidate|
                #[trigger] crate::locator::spec_located_multiset(data@, ext_lower@).contains(c)
                    ==> !spec_candidate_usable(data@, c)),
        },
        bound <= 65535 ==> match r {
            Ok(_) => true,
            Err(e) => e == DecodeError::NoUsablePreview,
        },
{
    broadcast use vstd::seq_lib::group_to_multiset_ensures;

    let cands = locate_embedded_candidates(data, ext_lower);
    match select_usable_candidate(data, &cands) {
        Some(img) => {
            let ghost k = choose|k: int|
                0 <= k < cands@.len() && spec_candidate_usable(data@, cands@[k])
                    && spec_decoded_dims(
                    data@.subrange(cands@[k].start as int, cands@[k].end as int),
                ) == Some((img.spec_width(), img.spec_height()));
            proof {
                vstd::seq_lib::to_multiset_contains(cands@, cands@[k]);
                assert(cands@.contains(cands@[k]));
                assert(crate::locator::spec_located_multiset(data@, ext_lower@).contains(
                    cands@[k],
                ));
                assert(spec_candidate_usable(data@, cands@[k]));
            }
            match render_with_policy(img, bound, quality) {
                Ok(out) => Ok(out),
                Err(_) => Err(DecodeError::EncodeFailed),
            }
        },
        None => {
            proof {
                assert forall|c: EmbeddedJpegCandidate|
                    #[trigger] crate::locator::spec_located_multiset(data@, ext_lower@).contains(
                        c,
                    ) implies !spec_candidate_usable(data@, c) by {
                    vstd::seq_lib::to_multiset_contains(cands@, c);
                    let j = cands@.index_of(c);
                    assert(!spec_candidate_usable(data@, cands@[j]));
                }
            }
            Err(DecodeError::NoUsablePreview)
        },
    }
}

} // verus!

// === Bounds of the policy output ============================================

verus! {

/// The shared policy never leaves the derivative's bounding box: any
/// source larger than the pass-through limit comes out within `bound` in
/// both dimensions, and a pass-through source keeps its own dimensions, so
/// every output fits the larger of the two limits.
pub proof fn lemma_policy_output_fits(width: u32, height: u32, bound: u32)
    requires
        width >= 1,
        height >= 1,
        bound >= 1,
    ensures
        ({
            let dims = spec_policy_output_dims(width, height, bound);
            &&& ((width > crate::scale::SMALL_PASSTHROUGH_LIMIT || height
                > crate::scale::SMALL_PASSTHROUGH_LIMIT) ==> dims.0 <= bound && dims.1 <= bound)
            &&& (width <= crate::scale::SMALL_PASSTHROUGH_LIMIT && height
                <= crate::scale::SMALL_PASSTHROUGH_LIMIT ==> dims == (width, height))
            &&& dims.0 >= 1 && dims.1 >= 1
        }),
{
    match spec_scale_plan(width, height) {
        ScalePlan::PassThrough => {
        },
        ScalePlan::SinglePass => {
            crate::scale::lemma_fit_dims_bounds(width, height, bound);
        },
        ScalePlan::TwoPass => {
            crate::scale::lemma_fit_dims_bounds(width, height, TWO_PASS_INTERMEDIATE_DIMENSION);
            let mid = spec_fit_dims(width, height, TWO_PASS_INTERMEDIATE_DIMENSION);
            crate::scale::lemma_fit_dims_bounds(mid.0, mid.1, bound);
        },
    }
}

} // verus!
