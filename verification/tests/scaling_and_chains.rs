use image_find::pipeline::{
    finish_generate, finish_video_thumbnail, generate_raster_derivative, plan_generate,
    GenerateAction, RasterChainFailure,
};
use image_find::raster::{scale_jpeg_bytes, DecodeError};
use image_find::scale::{fit_within, plan_scale, ScalePlan};
use image_find::tier::DerivativeTier;
use image_find::tiffconv::{
    convert_tiff_to_rgb_jpeg, generate_tiff_preview, generate_tiff_thumbnail, gray8_to_rgb,
    words_to_high_bytes, ycbcr_to_rgb,
};

fn encode_png(img: image::DynamicImage) -> Vec<u8> {
    let mut out = std::io::Cursor::new(Vec::new());
    img.write_to(&mut out, image::ImageFormat::Png).unwrap();
    out.into_inner()
}

fn decoded_dims(bytes: &[u8]) -> (u32, u32) {
    let img = image::load_from_memory(bytes).expect("output decodes");
    (img.width(), img.height())
}

#[test]
fn scaling_plan_boundaries() {
    assert_eq!(plan_scale(400, 300), ScalePlan::PassThrough);
    assert_eq!(plan_scale(400, 400), ScalePlan::PassThrough);
    assert_eq!(plan_scale(401, 300), ScalePlan::SinglePass);
    assert_eq!(plan_scale(300, 401), ScalePlan::SinglePass);
    assert_eq!(plan_scale(2000, 2000), ScalePlan::SinglePass);
    assert_eq!(plan_scale(2001, 100), ScalePlan::TwoPass);
    assert_eq!(plan_scale(3000, 2000), ScalePlan::TwoPass);
}

#[test]
fn bounding_box_dimensions() {
    assert_eq!(fit_within(5000, 3000, 200), (200, 120));
    assert_eq!(fit_within(3000, 5000, 200), (120, 200));
    assert_eq!(fit_within(100, 100, 200), (200, 200));
    assert_eq!(fit_within(1000, 333, 100), (100, 33));
    // The short side never rounds below one pixel.
    assert_eq!(fit_within(100000, 3, 100), (100, 1));
    assert_eq!(fit_within(600, 600, 1980), (1980, 1980));
}

#[test]
fn small_sources_pass_through_unresized() {
    let png = encode_png(image::DynamicImage::new_rgb8(400, 300));
    let out = scale_jpeg_bytes(&png, 200, 50).expect("pass-through");
    assert_eq!(decoded_dims(&out), (400, 300));
}

#[test]
fn sources_above_the_small_limit_are_resized() {
    let png = encode_png(image::DynamicImage::new_rgb8(401, 300));
    let out = scale_jpeg_bytes(&png, 200, 50).expect("single pass");
    // 401x300 into a 200 box: the long side is exactly 200.
    assert_eq!(decoded_dims(&out), (200, 150));
}

#[test]
fn large_sources_go_through_the_two_pass_path() {
    let png = encode_png(image::DynamicImage::new_rgb8(3000, 2000));
    let out = scale_jpeg_bytes(&png, 200, 50).expect("two passes");
    // 3000x2000 -> 800x533 intermediate -> 200x133.
    assert_eq!(decoded_dims(&out), (200, 133));
}

#[test]
fn thumbnail_of_a_large_source_fits_its_box() {
    let png = encode_png(image::DynamicImage::new_rgb8(5000, 3000));
    let out =
        generate_raster_derivative(&png, "png", DerivativeTier::Thumbnail).expect("thumbnail");
    let (w, h) = decoded_dims(&out);
    assert!(w <= 200 && h <= 200);
    assert_eq!((w, h), (200, 120));
    // Every derivative is a JPEG, whatever the source format.
    assert_eq!(&out[..2], &[0xff, 0xd8]);
}

#[test]
fn preview_of_a_large_source_fits_its_box() {
    let png = encode_png(image::DynamicImage::new_rgb8(5000, 3000));
    let out = generate_raster_derivative(&png, "png", DerivativeTier::Preview).expect("preview");
    let (w, h) = decoded_dims(&out);
    assert!(w <= 1980 && h <= 1980);
    // Two passes: 5000x3000 -> 800x480 -> into the 1980 box.
    assert_eq!((w, h), (1980, 1188));
}

#[test]
fn undecodable_bytes_fail_the_raster_chain() {
    let garbage = vec![0x42u8; 256];
    match generate_raster_derivative(&garbage, "txt", DerivativeTier::Thumbnail) {
        Err(RasterChainFailure::Failed(e)) => {
            assert!(e == DecodeError::UnsupportedFormat || e == DecodeError::CorruptData);
        }
        other => panic!("expected failure, got {:?}", other.map(|v| v.len())),
    }
}

#[test]
fn unsupported_raw_extension_asks_for_raw_extraction() {
    let garbage = vec![0x42u8; 256];
    let r = generate_raster_derivative(&garbage, "nef", DerivativeTier::Thumbnail);
    assert!(matches!(r, Err(RasterChainFailure::NeedsRawExtraction)));
}

#[test]
fn generate_decisions() {
    assert_eq!(plan_generate(false, false), GenerateAction::RejectMissing);
    assert_eq!(plan_generate(false, true), GenerateAction::RejectMissing);
    assert_eq!(plan_generate(true, true), GenerateAction::ServeCached);
    assert_eq!(plan_generate(true, false), GenerateAction::RunDecodeChain);

    let bytes = vec![1u8, 2, 3];
    let (r, write) = finish_generate(Some(bytes.clone()));
    assert_eq!(r, Some(bytes));
    assert!(write);
    let (r2, write2) = finish_generate(None);
    assert_eq!(r2, None);
    assert!(!write2);
}

#[test]
fn video_frame_is_reencoded_or_passed_through() {
    // A decodable frame is re-encoded as a JPEG of the same dimensions,
    // even when the extractor handed over another raster format.
    let png = encode_png(image::DynamicImage::new_rgb8(120, 80));
    let out = finish_video_thumbnail(png.clone());
    assert_eq!(decoded_dims(&out), (120, 80));
    assert_eq!(&out[..2], &[0xff, 0xd8]);
    assert_ne!(out, png);
    // A frame that does not decode comes back unchanged.
    let garbage = vec![9u8; 64];
    assert_eq!(finish_video_thumbnail(garbage.clone()), garbage);
}

#[test]
fn tiff_sample_conversions() {
    assert_eq!(gray8_to_rgb(&vec![1, 2]), vec![1, 1, 1, 2, 2, 2]);
    assert_eq!(words_to_high_bytes(&vec![0x1234, 0xff00]), vec![0x12, 0xff]);
    // A neutral YCbCr pixel is neutral gray.
    assert_eq!(ycbcr_to_rgb(&vec![128, 128, 128]), vec![128, 128, 128]);
    // y=100, cb=128, cr=228: red is 100 + 1.402 * 100, rounded.
    let px = ycbcr_to_rgb(&vec![100, 128, 228]);
    assert_eq!(px[0], 240);
    // Saturation clamps to the 8-bit range.
    let hot = ycbcr_to_rgb(&vec![255, 255, 255]);
    assert_eq!(hot[0], 255);
    let cold = ycbcr_to_rgb(&vec![0, 0, 0]);
    assert_eq!(cold[2], 0);
}

fn encode_tiff_rgb(width: u32, height: u32) -> Vec<u8> {
    let mut cursor = std::io::Cursor::new(Vec::new());
    let mut enc = tiff::encoder::TiffEncoder::new(&mut cursor).unwrap();
    let data = vec![0x55u8; (width * height * 3) as usize];
    enc.write_image::<tiff::encoder::colortype::RGB8>(width, height, &data)
        .unwrap();
    cursor.into_inner()
}

fn encode_tiff_gray(width: u32, height: u32) -> Vec<u8> {
    let mut cursor = std::io::Cursor::new(Vec::new());
    let mut enc = tiff::encoder::TiffEncoder::new(&mut cursor).unwrap();
    let data = vec![0x77u8; (width * height) as usize];
    enc.write_image::<tiff::encoder::colortype::Gray8>(width, height, &data)
        .unwrap();
    cursor.into_inner()
}

#[test]
fn tiff_chain_produces_tier_sized_jpegs() {
    let small = encode_tiff_rgb(300, 200);
    let out = generate_tiff_thumbnail(&small).expect("small tiff passes through");
    assert_eq!(decoded_dims(&out), (300, 200));

    let medium = encode_tiff_gray(1000, 400);
    let out2 = generate_tiff_thumbnail(&medium).expect("gray tiff");
    assert_eq!(decoded_dims(&out2), (200, 80));

    let out3 = generate_tiff_preview(&medium).expect("gray tiff preview");
    assert_eq!(decoded_dims(&out3), (1980, 792));

    let out4 = convert_tiff_to_rgb_jpeg(&medium, 100, 60).expect("custom bound");
    assert_eq!(decoded_dims(&out4), (100, 40));
}

#[test]
fn tiff_chain_rejects_non_tiff_bytes() {
    let garbage = vec![0x13u8; 512];
    assert!(matches!(
        generate_tiff_thumbnail(&garbage),
        Err(DecodeError::CorruptData)
    ));
}

#[test]
fn generate_twice_serves_the_second_from_cache() {
    // Drive the generator's decisions over a cache model and count how
    // often the decode chain would run: the second call is a cache hit.
    let mut cache: std::collections::HashMap<String, Vec<u8>> = std::collections::HashMap::new();
    let mut decode_runs = 0;
    let key = "some-cache-key".to_string();
    let mut one_call = |cache: &mut std::collections::HashMap<String, Vec<u8>>,
                        decode_runs: &mut i32|
     -> Option<Vec<u8>> {
        let cached = cache.get(&key).cloned();
        match plan_generate(true, cached.is_some()) {
            GenerateAction::RejectMissing => None,
            GenerateAction::ServeCached => cached,
            GenerateAction::RunDecodeChain => {
                *decode_runs += 1;
                let produced = Some(vec![7u8, 8, 9]);
                let (result, write_through) = finish_generate(produced);
                if write_through {
                    cache.insert(key.clone(), result.clone().unwrap());
                }
                result
            }
        }
    };
    let first = one_call(&mut cache, &mut decode_runs);
    let second = one_call(&mut cache, &mut decode_runs);
    assert_eq!(first, Some(vec![7u8, 8, 9]));
    assert_eq!(first, second);
    assert_eq!(decode_runs, 1);
}
