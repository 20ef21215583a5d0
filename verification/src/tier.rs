//! The two derivative tiers and their fixed scaling parameters.

use vstd::prelude::*;

verus! {

/// A derivative tier: the bounded size and JPEG quality a cache entry is
/// generated at. Each tier owns a distinct cache root directory, so the two
/// tiers form distinct namespaces even though cache keys are shared.
#[derive(Clone, Copy, PartialEq, Eq, Structural, Debug)]
pub enum DerivativeTier {
    /// Small derivative used in search result grids.
    Thumbnail,
    /// Large derivative used by the full-size viewer.
    Preview,
}

/// Maximum bounding dimension of a thumbnail, in pixels.
pub const THUMBNAIL_MAX_DIMENSION: u32 = 200;

/// Maximum bounding dimension of a preview, in pixels.
pub const PREVIEW_MAX_DIMENSION: u32 = 1980;

/// JPEG quality thumbnails are encoded at.
pub const THUMBNAIL_JPEG_QUALITY: u8 = 50;

/// JPEG quality previews are encoded at.
pub const PREVIEW_JPEG_QUALITY: u8 = 60;

/// The bounding dimension a tier scales into.
pub open spec fn spec_tier_max_dimension(tier: DerivativeTier) -> u32 {
    match tier {
        DerivativeTier::Thumbnail => THUMBNAIL_MAX_DIMENSION,
        DerivativeTier::Preview => PREVIEW_MAX_DIMENSION,
    }
}

/// The JPEG quality a tier encodes at.
pub open spec fn spec_tier_jpeg_quality(tier: DerivativeTier) -> u8 {
    match tier {
        DerivativeTier::Thumbnail => THUMBNAIL_JPEG_QUALITY,
        DerivativeTier::Preview => PREVIEW_JPEG_QUALITY,
    }
}

/// Returns the maximum bounding dimension for `tier`.
pub fn tier_max_dimension(tier: DerivativeTier) -> (d: u32)
    ensures
        d == spec_tier_max_dimension(tier),
{
    match tier {
        DerivativeTier::Thumbnail => THUMBNAIL_MAX_DIMENSION,
        DerivativeTier::Preview => PREVIEW_MAX_DIMENSION,
    }
}

/// Returns the JPEG quality for `tier`.
pub fn tier_jpeg_quality(tier: DerivativeTier) -> (q: u8)
    ensures
        q == spec_tier_jpeg_quality(tier),
{
    match tier {
        DerivativeTier::Thumbnail => THUMBNAIL_JPEG_QUALITY,
        DerivativeTier::Preview => PREVIEW_JPEG_QUALITY,
    }
}

} // verus!
