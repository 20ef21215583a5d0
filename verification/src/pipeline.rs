//! The derivative generator's decision logic and its cache model.
//!
//! The generator is the single entry point for interactive requests and
//! background workers alike: reject a missing source, serve a cache hit,
//! otherwise run the decode chain and write through. The filesystem work —
//! existence checks, cache reads and writes, reading source bytes — is the
//! caller's; every decision is made here, against a model of the cache as a
//! map from keys to entry bytes.

use vstd::prelude::*;

use crate::media::{is_any_raw_ext, spec_is_primary_raw_ext, spec_is_secondary_raw_ext};
use crate::raster::{
    decode_raster, raster_dimensions, render_with_policy, spec_decode_unsupported,
    spec_decoded_dims, spec_jpeg_signature, spec_policy_output_dims, DecodeError,
    RasterDecodeFailure,
};
use crate::tier::{spec_tier_max_dimension, tier_jpeg_quality, tier_max_dimension,
    DerivativeTier};

verus! {

/// What the generator does next for a request.
#[derive(Clone, Copy, PartialEq, Eq, Structural, Debug)]
pub enum GenerateAction {
    /// The source path does not exist: report absent, touch nothing.
    RejectMissing,
    /// The cache holds the entry: serve it without validation.
    ServeCached,
    /// Cache miss: run the decode chain for the source's class.
    RunDecodeChain,
}

/// The generator's first decision, from the two facts the caller
/// establishes: whether the source exists and whether the cache holds the
/// key.
pub fn plan_generate(source_exists: bool, cached: bool) -> (a: GenerateAction)
    ensures
        a == GenerateAction::RejectMissing <==> !source_exists,
        a == GenerateAction::ServeCached <==> source_exists && cached,
        a == GenerateAction::RunDecodeChain <==> source_exists && !cached,
{
    if !source_exists {
        GenerateAction::RejectMissing
    } else if cached {
        GenerateAction::ServeCached
    } else {
        GenerateAction::RunDecodeChain
    }
}

/// The generator's last decision: a decode success is returned to the
/// caller and written through to the cache; a decode failure is absent and
/// writes nothing. A cache-write failure never fails the request, so the
/// returned bytes do not depend on it.
pub fn finish_generate(decoded: Option<Vec<u8>>) -> (r: (Option<Vec<u8>>, bool))
    ensures
        r.0 == decoded,
        r.1 == decoded is Some,
{
    let write_through = decoded.is_some();
    (decoded, write_through)
}

/// What one `generate` call returns, over a model of one tier's cache as a
/// map from keys to entry bytes: absent for a missing source, the cached
/// bytes on a hit with no validation, else whatever the decode chain
/// produced.
pub open spec fn spec_generate_outcome(
    cache: Map<Seq<char>, Seq<u8>>,
    key: Seq<char>,
    source_exists: bool,
    produced: Option<Seq<u8>>,
) -> Option<Seq<u8>> {
    if !source_exists {
        None
    } else if cache.dom().contains(key) {
        Some(cache[key])
    } else {
        produced
    }
}

/// The tier's cache after one `generate` call: only a decode success on a
/// cache miss writes, and entries are never updated or deleted.
pub open spec fn spec_cache_after_generate(
    cache: Map<Seq<char>, Seq<u8>>,
    key: Seq<char>,
    source_exists: bool,
    produced: Option<Seq<u8>>,
) -> Map<Seq<char>, Seq<u8>> {
    if source_exists && !cache.dom().contains(key) && produced is Some {
        cache.insert(key, produced->0)
    } else {
        cache
    }
}

/// Generating twice in a row is idempotent: when the first call returns
/// bytes, the second call returns byte-identical output, leaves the cache
/// unchanged, and is served from the cache — its outcome does not depend
/// on what a second decode would produce, so the decode chain need not run
/// at all.
pub proof fn lemma_generate_idempotent(
    cache: Map<Seq<char>, Seq<u8>>,
    key: Seq<char>,
    source_exists: bool,
    produced1: Option<Seq<u8>>,
    produced2: Option<Seq<u8>>,
)
    requires
        spec_generate_outcome(cache, key, source_exists, produced1) is Some,
    ensures
        ({
            let first = spec_generate_outcome(cache, key, source_exists, produced1);
            let cache1 = spec_cache_after_generate(cache, key, source_exists, produced1);
            let second = spec_generate_outcome(cache1, key, source_exists, produced2);
            let cache2 = spec_cache_after_generate(cache1, key, source_exists, produced2);
            second == first && cache2 == cache1 && cache1.dom().contains(key)
        }),
{
}

/// How the raster-class chain failed.
#[derive(Clone, Copy, PartialEq, Eq, Structural, Debug)]
pub enum RasterChainFailure {
    /// The generic decoder does not support the format and the extension
    /// belongs to a RAW family: the caller falls back to the RAW chain.
    NeedsRawExtraction,
    /// The chain failed for good.
    Failed(DecodeError),
}

/// The standard raster chain: the generic decoder, then the shared scaling
/// policy. An unsupported-format failure on a RAW extension asks the
/// caller for RAW extraction instead; any other failure is final.
pub fn generate_raster_derivative(bytes: &[u8], ext_lower: &str, tier: DerivativeTier) -> (r:
    Result<Vec<u8>, RasterChainFailure>)
    ensures
        r is Ok <==> match spec_decoded_dims(bytes@) {
            Some(d) => d.0 >= 1 && d.1 >= 1,
            None => false,
        },
        match r {
            Ok(out) => spec_jpeg_signature(out@) && match spec_decoded_dims(bytes@) {
                Some(d) => d.0 >= 1 && d.1 >= 1 && spec_decoded_dims(out@) == Some(
                    spec_policy_output_dims(d.0, d.1, spec_tier_max_dimension(tier)),
                ),
                None => false,
            },
            Err(RasterChainFailure::NeedsRawExtraction) => spec_decoded_dims(bytes@) is None
                && spec_decode_unsupported(bytes@) && (spec_is_primary_raw_ext(ext_lower@)
                || spec_is_secondary_raw_ext(ext_lower@)),
            Err(RasterChainFailure::Failed(e)) => match spec_decoded_dims(bytes@) {
                Some(d) => (d.0 == 0 || d.1 == 0) && e == DecodeError::ZeroDimension,
                None => (e == DecodeError::UnsupportedFormat <==> spec_decode_unsupported(bytes@))
                    && (spec_decode_unsupported(bytes@) ==> !(spec_is_primary_raw_ext(ext_lower@)
                    || spec_is_secondary_raw_ext(ext_lower@))),
            },
        },
{
    let bound = tier_max_dimension(tier);
    let quality = tier_jpeg_quality(tier);
    match decode_raster(bytes) {
        Ok(img) => {
            let dims = raster_dimensions(&img);
            if dims.0 == 0 || dims.1 == 0 {
                return Err(RasterChainFailure::Failed(DecodeError::ZeroDimension));
            }
            match render_with_policy(img, bound, quality) {
                Ok(out) => Ok(out),
                Err(_) => Err(RasterChainFailure::Failed(DecodeError::EncodeFailed)),
            }
        },
        Err(RasterDecodeFailure::UnsupportedFormat) => {
            if is_any_raw_ext(ext_lower) {
                Err(RasterChainFailure::NeedsRawExtraction)
            } else {
                Err(RasterChainFailure::Failed(DecodeError::UnsupportedFormat))
            }
        },
        Err(RasterDecodeFailure::CorruptData) => Err(
            RasterChainFailure::Failed(DecodeError::CorruptData),
        ),
    }
}

/// Finishes a video thumbnail: a frame that decodes with dimensions in
/// the JPEG range is re-encoded as a JPEG of the same dimensions at the
/// thumbnail quality; any other frame is passed through unchanged.
pub fn finish_video_thumbnail(frame_bytes: Vec<u8>) -> (r: Vec<u8>)
    ensures
        match spec_decoded_dims(frame_bytes@) {
            Some(d) => if 1 <= d.0 <= 65535 && 1 <= d.1 <= 65535 {
                spec_decoded_dims(r@) == Some(d) && spec_jpeg_signature(r@)
            } else {
                r@ == frame_bytes@
            },
            None => r@ == frame_bytes@,
        },
{
    match decode_raster(frame_bytes.as_slice()) {
        Ok(img) => {
            match reencode_frame(&img) {
                Some(out) => out,
                None => frame_bytes,
            }
        },
        Err(_) => frame_bytes,
    }
}

/// Re-encodes a decoded frame at the thumbnail quality without resizing.
fn reencode_frame(img: &crate::raster::RasterImage) -> (r: Option<Vec<u8>>)
    ensures
        match r {
            Some(out) => spec_decoded_dims(out@) == Some((img.spec_width(), img.spec_height()))
                && spec_jpeg_signature(out@),
            None => true,
        },
        r is Some <==> (1 <= img.spec_width() <= 65535 && 1 <= img.spec_height() <= 65535),
{
    crate::raster::reencode_jpeg(img, crate::tier::THUMBNAIL_JPEG_QUALITY)
}

} // verus!
