//! The TIFF decode chain: a dedicated decoder with explicit colorspace
//! handling. Grayscale and YCbCr samples are converted to RGB, 16-bit
//! samples are brought down to 8 bits by their high byte, and the result is
//! scaled into the tier by the shared policy.
//!
//! The `tiff` crate reads the container; every sample conversion is
//! verified here. The YCbCr conversion uses the ITU-R BT.601 coefficients
//! in 16.16 fixed-point arithmetic.

use vstd::prelude::*;

use crate::raster::{
    raster_from_rgb8, render_with_policy, spec_decoded_dims, spec_jpeg_signature,
    spec_policy_output_dims, DecodeError,
};
use crate::tier::{
    PREVIEW_JPEG_QUALITY, PREVIEW_MAX_DIMENSION, THUMBNAIL_JPEG_QUALITY, THUMBNAIL_MAX_DIMENSION,
};

verus! {

/// The colorspace classes the TIFF chain tells apart.
#[derive(Clone, Copy, PartialEq, Eq, Structural, Debug)]
pub enum TiffColorKind {
    /// One grayscale sample per pixel.
    Gray,
    /// Three RGB samples per pixel.
    Rgb,
    /// Three YCbCr samples per pixel.
    YCbCr,
    /// Any other colorspace; its samples are passed through untouched.
    Other,
}

/// The sample buffer a TIFF decodes to.
pub enum TiffPixelData {
    /// 8-bit samples.
    Bytes(Vec<u8>),
    /// 16-bit samples.
    Words(Vec<u16>),
    /// A sample format the chain does not handle.
    Unsupported,
}

/// A decoded TIFF: dimensions, colorspace class and the sample buffer.
pub struct TiffDecoded {
    /// Width in pixels.
    pub width: u32,
    /// Height in pixels.
    pub height: u32,
    /// Colorspace class.
    pub color: TiffColorKind,
    /// Sample buffer.
    pub data: TiffPixelData,
}

/// The width of a decoded sample buffer.
#[derive(Clone, Copy, PartialEq, Eq, Structural, Debug)]
pub enum TiffSampleKind {
    /// 8-bit samples.
    Bits8,
    /// 16-bit samples.
    Bits16,
    /// A sample format the chain does not handle.
    Other,
}

/// The pixel dimensions the TIFF decoder reads from `bytes`, or `None`
/// when the container does not decode; a function of the bytes alone.
pub uninterp spec fn spec_tiff_dims(bytes: Seq<u8>) -> Option<(u32, u32)>;

/// The colorspace class the decoder reports for `bytes`; a function of the
/// bytes alone, meaningful when the container decodes.
pub uninterp spec fn spec_tiff_color(bytes: Seq<u8>) -> TiffColorKind;

/// The kind and count of the samples the decoder reads from `bytes`; a
/// function of the bytes alone, meaningful when the container decodes. The
/// count is not a simple function of the dimensions: a planar container,
/// for one, decodes to a single sample plane.
pub uninterp spec fn spec_tiff_sample_shape(bytes: Seq<u8>) -> (TiffSampleKind, int);

/// Relies on `tiff::decoder::Decoder` through `new`, `with_limits`,
/// `dimensions`, `colortype` and `read_image`: the dimensions, the
/// colorspace class and the decoded samples are each a pure function of
/// the bytes.
#[verifier::external_body]
fn decode_tiff(bytes: &[u8]) -> (r: Option<TiffDecoded>)
    ensures
        match r {
            Some(t) => spec_tiff_dims(bytes@) == Some((t.width, t.height)) && spec_tiff_color(
                bytes@,
            ) == t.color && match t.data {
                TiffPixelData::Bytes(v) => spec_tiff_sample_shape(bytes@) == (
                    TiffSampleKind::Bits8,
                    v@.len() as int,
                ),
                TiffPixelData::Words(v) => spec_tiff_sample_shape(bytes@) == (
                    TiffSampleKind::Bits16,
                    v@.len() as int,
                ),
                TiffPixelData::Unsupported => spec_tiff_sample_shape(bytes@).0
                    == TiffSampleKind::Other,
            },
            None => spec_tiff_dims(bytes@) is None,
        },
{
    let cursor = std::io::Cursor::new(bytes);
    let mut dec = tiff::decoder::Decoder::new(cursor).ok()?.with_limits(tiff::decoder::Limits::unlimited());
    let (width, height) = dec.dimensions().ok()?;
    let color = match dec.colortype().ok()? {
        tiff::ColorType::Gray(_) => TiffColorKind::Gray,
        tiff::ColorType::RGB(_) => TiffColorKind::Rgb,
        tiff::ColorType::YCbCr(_) => TiffColorKind::YCbCr,
        _ => TiffColorKind::Other,
    };
    let data = match dec.read_image().ok()? {
        tiff::decoder::DecodingResult::U8(v) => TiffPixelData::Bytes(v),
        tiff::decoder::DecodingResult::U16(v) => TiffPixelData::Words(v),
        _ => TiffPixelData::Unsupported,
    };
    Some(TiffDecoded { width, height, color, data })
}

/// Grayscale to RGB: every sample is repeated for each of the three
/// channels.
pub open spec fn spec_gray_to_rgb(data: Seq<u8>) -> Seq<u8> {
    Seq::new(data.len() * 3, |i: int| data[i / 3])
}

/// Expands grayscale samples to RGB by duplicating each value.
pub fn gray8_to_rgb(data: &Vec<u8>) -> (r: Vec<u8>)
    ensures
        r@ == spec_gray_to_rgb(data@),
{
    let mut out: Vec<u8> = Vec::new();
    let mut i: usize = 0;
    while i < data.len()
        invariant
            i <= data@.len(),
            out@.len() == i * 3,
            forall|j: int| 0 <= j < out@.len() ==> out@[j] == data@[j / 3],
        decreases data@.len() - i,
    {
        let v = data[i];
        out.push(v);
        out.push(v);
        out.push(v);
        i = i + 1;
    }
    proof {
        assert(out@ =~= spec_gray_to_rgb(data@));
    }
    out
}

/// A 16-bit sample brought down to 8 bits: its high byte.
pub open spec fn spec_word_high_byte(x: u16) -> u8 {
    (x >> 8) as u8
}

/// 16-bit samples brought down to 8 bits, high byte each.
pub open spec fn spec_words_to_bytes(data: Seq<u16>) -> Seq<u8> {
    Seq::new(data.len(), |i: int| spec_word_high_byte(data[i]))
}

/// Downsamples 16-bit samples to 8 bits by taking the high byte.
pub fn words_to_high_bytes(data: &Vec<u16>) -> (r: Vec<u8>)
    ensures
        r@ == spec_words_to_bytes(data@),
{
    let mut out: Vec<u8> = Vec::new();
    let mut i: usize = 0;
    while i < data.len()
        invariant
            i <= data@.len(),
            out@.len() == i,
            forall|j: int| 0 <= j < out@.len() ==> out@[j] == spec_word_high_byte(data@[j]),
        decreases data@.len() - i,
    {
        let x = data[i];
        proof {
            assert(x >> 8 < 256) by (bit_vector);
        }
        out.push((x >> 8) as u8);
        i = i + 1;
    }
    proof {
        assert(out@ =~= spec_words_to_bytes(data@));
    }
    out
}

/// Clamps a channel value to the 8-bit range.
pub open spec fn spec_clamp_channel(v: int) -> u8 {
    if v < 0 {
        0u8
    } else if v > 255 {
        255u8
    } else {
        v as u8
    }
}

/// The red channel of a BT.601 YCbCr pixel: `y + 1.402 (cr - 128)` in
/// 16.16 fixed point, rounded, clamped.
pub open spec fn spec_bt601_red(y: u8, cr: u8) -> u8 {
    spec_clamp_channel(
        (65536 * (y as int) + 91881 * ((cr as int) - 128) + 32768 + 16777216) / 65536 - 256,
    )
}

/// The green channel: `y - 0.344136 (cb - 128) - 0.714136 (cr - 128)`.
pub open spec fn spec_bt601_green(y: u8, cb: u8, cr: u8) -> u8 {
    spec_clamp_channel(
        (65536 * (y as int) - 22554 * ((cb as int) - 128) - 46802 * ((cr as int) - 128) + 32768
            + 16777216) / 65536 - 256,
    )
}

/// The blue channel: `y + 1.772 (cb - 128)`.
pub open spec fn spec_bt601_blue(y: u8, cb: u8) -> u8 {
    spec_clamp_channel(
        (65536 * (y as int) + 116130 * ((cb as int) - 128) + 32768 + 16777216) / 65536 - 256,
    )
}

/// The RGB rendering of a YCbCr buffer, three samples per pixel; trailing
/// samples of an incomplete pixel are dropped.
pub open spec fn spec_ycbcr_to_rgb(data: Seq<u8>) -> Seq<u8> {
    Seq::new(
        (data.len() / 3) * 3,
        |i: int|
            {
                let p = i / 3;
                let y = data[3 * p];
                let cb = data[3 * p + 1];
                let cr = data[3 * p + 2];
                if i % 3 == 0 {
                    spec_bt601_red(y, cr)
                } else if i % 3 == 1 {
                    spec_bt601_green(y, cb, cr)
                } else {
                    spec_bt601_blue(y, cb)
                }
            },
    )
}

/// Converts one YCbCr pixel's red channel.
fn bt601_red(y: u8, cr: u8) -> (r: u8)
    ensures
        r == spec_bt601_red(y, cr),
{
    let t: i64 = 65536 * (y as i64) + 91881 * ((cr as i64) - 128) + 32768 + 16777216;
    let q: i64 = t / 65536 - 256;
    if q < 0 {
        0
    } else if q > 255 {
        255
    } else {
        q as u8
    }
}

/// Converts one YCbCr pixel's green channel.
fn bt601_green(y: u8, cb: u8, cr: u8) -> (r: u8)
    ensures
        r == spec_bt601_green(y, cb, cr),
{
    let t: i64 = 65536 * (y as i64) - 22554 * ((cb as i64) - 128) - 46802 * ((cr as i64) - 128)
        + 32768 + 16777216;
    let q: i64 = t / 65536 - 256;
    if q < 0 {
        0
    } else if q > 255 {
        255
    } else {
        q as u8
    }
}

/// Converts one YCbCr pixel's blue channel.
fn bt601_blue(y: u8, cb: u8) -> (r: u8)
    ensures
        r == spec_bt601_blue(y, cb),
{
    let t: i64 = 65536 * (y as i64) + 116130 * ((cb as i64) - 128) + 32768 + 16777216;
    let q: i64 = t / 65536 - 256;
    if q < 0 {
        0
    } else if q > 255 {
        255
    } else {
        q as u8
    }
}

/// Converts YCbCr samples to RGB with the BT.601 coefficients.
pub fn ycbcr_to_rgb(data: &Vec<u8>) -> (r: Vec<u8>)
    ensures
        r@ == spec_ycbcr_to_rgb(data@),
{
    let n = data.len();
    let pixels = n / 3;
    let mut out: Vec<u8> = Vec::new();
    let mut p: usize = 0;
    while p < pixels
        invariant
            n == data@.len(),
            pixels == data@.len() / 3,
            p <= pixels,
            out@.len() == p * 3,
            forall|j: int| 0 <= j < out@.len() ==> out@[j] == spec_ycbcr_to_rgb(data@)[j],
        decreases pixels - p,
    {
        proof {
            assert(3 * (data@.len() / 3) <= data@.len()) by (nonlinear_arith);
            assert(3 * (p as int) + 2 < data@.len()) by (nonlinear_arith)
                requires
                    p < pixels,
                    pixels == data@.len() / 3,
                    3 * (data@.len() / 3) <= data@.len(),
            ;
        }
        let y = data[3 * p];
        let cb = data[3 * p + 1];
        let cr = data[3 * p + 2];
        out.push(bt601_red(y, cr));
        out.push(bt601_green(y, cb, cr));
        out.push(bt601_blue(y, cb));
        p = p + 1;
    }
    proof {
        assert(out@ =~= spec_ycbcr_to_rgb(data@));
    }
    out
}

/// The RGB buffer length the colorspace conversion produces from a sample
/// buffer of `count` values.
pub open spec fn spec_converted_rgb_len(color: TiffColorKind, count: int) -> int {
    match color {
        TiffColorKind::Gray => 3 * count,
        TiffColorKind::YCbCr => (count / 3) * 3,
        TiffColorKind::Rgb => count,
        TiffColorKind::Other => count,
    }
}

/// The chain can convert these bytes: the container decodes with nonzero
/// dimensions to a sample kind the chain handles, and the converted
/// samples make exactly one RGB image.
pub open spec fn spec_tiff_convertible(bytes: Seq<u8>) -> bool {
    match spec_tiff_dims(bytes) {
        Some(d) => d.0 >= 1 && d.1 >= 1 && spec_tiff_sample_shape(bytes).0
            != TiffSampleKind::Other && spec_converted_rgb_len(
            spec_tiff_color(bytes),
            spec_tiff_sample_shape(bytes).1,
        ) == 3 * d.0 * d.1,
        None => false,
    }
}

/// Converts a TIFF buffer to an RGB JPEG within `max_dimension` at
/// `jpeg_quality`: decode, colorspace conversion, shared scaling policy.
/// Succeeds exactly on convertible bytes whenever the bound lies in the
/// JPEG range; each failure names its cause.
pub fn convert_tiff_to_rgb_jpeg(bytes: &[u8], max_dimension: u32, jpeg_quality: u8) -> (r: Result<
    Vec<u8>,
    DecodeError,
>)
    requires
        max_dimension >= 1,
        1 <= jpeg_quality <= 100,
    ensures
        match r {
            Ok(out) => spec_tiff_convertible(bytes@) && spec_jpeg_signature(out@) && match spec_tiff_dims(bytes@) {
                Some(d) => spec_decoded_dims(out@) == Some(
                    spec_policy_output_dims(d.0, d.1, max_dimension),
                ),
                None => false,
            },
            Err(e) => match spec_tiff_dims(bytes@) {
                None => e == DecodeError::CorruptData,
                Some(d) => if d.0 == 0 || d.1 == 0 {
                    e == DecodeError::ZeroDimension
                } else if !spec_tiff_convertible(bytes@) {
                    e == DecodeError::CorruptData
                } else {
                    e == DecodeError::EncodeFailed
                },
            },
        },
        max_dimension <= 65535 ==> (r is Ok <==> spec_tiff_convertible(bytes@)),
{
    let decoded = match decode_tiff(bytes) {
        Some(t) => t,
        None => {
            return Err(DecodeError::CorruptData);
        },
    };
    let width = decoded.width;
    let height = decoded.height;
    if width == 0 || height == 0 {
        return Err(DecodeError::ZeroDimension);
    }
    let rgb: Vec<u8> = match decoded.data {
        TiffPixelData::Bytes(v) => match decoded.color {
            TiffColorKind::Gray => gray8_to_rgb(&v),
            TiffColorKind::Rgb => v,
            TiffColorKind::YCbCr => ycbcr_to_rgb(&v),
            TiffColorKind::Other => v,
        },
        TiffPixelData::Words(v) => match decoded.color {
            TiffColorKind::Gray => {
                let bytes8 = words_to_high_bytes(&v);
                gray8_to_rgb(&bytes8)
            },
            TiffColorKind::YCbCr => {
                let bytes8 = words_to_high_bytes(&v);
                ycbcr_to_rgb(&bytes8)
            },
            TiffColorKind::Rgb => words_to_high_bytes(&v),
            TiffColorKind::Other => words_to_high_bytes(&v),
        },
        TiffPixelData::Unsupported => {
            return Err(DecodeError::CorruptData);
        },
    };
    proof {
        assert((width as int) * (height as int) <= 0xffff_ffff_ffff_ffff) by (nonlinear_arith)
            requires
                width <= u32::MAX,
                height <= u32::MAX,
        ;
    }
    proof {
        assert(rgb@.len() == spec_converted_rgb_len(
            spec_tiff_color(bytes@),
            spec_tiff_sample_shape(bytes@).1,
        ));
        assert((width as u128) * (height as u128) == (width as int) * (height as int))
            by (nonlinear_arith)
            requires
                width <= u32::MAX,
                height <= u32::MAX,
        ;
        assert(3 * (width as int) * (height as int) == 3 * ((width as int) * (height as int)))
            by (nonlinear_arith);
    }
    let expected: u128 = 3 * ((width as u128) * (height as u128));
    if (rgb.len() as u128) != expected {
        return Err(DecodeError::CorruptData);
    }
    proof {
        let w = width as int;
        let h = height as int;
        assert(rgb@.len() == 3 * (w * h));
        assert(3 * (w * h) == 3 * w * h) by (nonlinear_arith);
    }
    let img = match raster_from_rgb8(width, height, rgb) {
        Some(img) => img,
        None => {
            return Err(DecodeError::CorruptData);
        },
    };
    render_with_policy(img, max_dimension, jpeg_quality)
}

/// Generates the full-size TIFF preview through the dedicated chain.
pub fn generate_tiff_preview(bytes: &[u8]) -> (r: Result<Vec<u8>, DecodeError>)
    ensures
        r is Ok <==> spec_tiff_convertible(bytes@),
        match r {
            Ok(out) => spec_jpeg_signature(out@) && match spec_tiff_dims(bytes@) {
                Some(d) => d.0 >= 1 && d.1 >= 1 && spec_decoded_dims(out@) == Some(
                    spec_policy_output_dims(d.0, d.1, PREVIEW_MAX_DIMENSION),
                ),
                None => false,
            },
            Err(e) => match spec_tiff_dims(bytes@) {
                None => e == DecodeError::CorruptData,
                Some(d) => if d.0 == 0 || d.1 == 0 {
                    e == DecodeError::ZeroDimension
                } else {
                    e == DecodeError::CorruptData
                },
            },
        },
{
    convert_tiff_to_rgb_jpeg(bytes, PREVIEW_MAX_DIMENSION, PREVIEW_JPEG_QUALITY)
}

/// Generates the TIFF thumbnail through the dedicated chain.
pub fn generate_tiff_thumbnail(bytes: &[u8]) -> (r: Result<Vec<u8>, DecodeError>)
    ensures
        r is Ok <==> spec_tiff_convertible(bytes@),
        match r {
            Ok(out) => spec_jpeg_signature(out@) && match spec_tiff_dims(bytes@) {
                Some(d) => d.0 >= 1 && d.1 >= 1 && spec_decoded_dims(out@) == Some(
                    spec_policy_output_dims(d.0, d.1, THUMBNAIL_MAX_DIMENSION),
                ),
                None => false,
            },
            Err(e) => match spec_tiff_dims(bytes@) {
                None => e == DecodeError::CorruptData,
                Some(d) => if d.0 == 0 || d.1 == 0 {
                    e == DecodeError::ZeroDimension
                } else {
                    e == DecodeError::CorruptData
                },
            },
        },
{
    convert_tiff_to_rgb_jpeg(bytes, THUMBNAIL_MAX_DIMENSION, THUMBNAIL_JPEG_QUALITY)
}

} // verus!
