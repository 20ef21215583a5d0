use image_find::locator::{
    locate_embedded_candidates, raf_has_magic, scan_generic_candidates, scan_raf_candidates,
    scan_walker_candidates, segment_walk_stream_end, GENERIC_MIN_CANDIDATE_BYTES,
    NEF_MIN_CANDIDATE_BYTES, RAF_MIN_CANDIDATE_BYTES,
};
use image_find::raster::{extract_embedded_preview, DecodeError};
use image_find::rawchain::{
    generate_raw_preview, generate_raw_thumbnail, is_jpeg_name, select_largest_preview_file,
};

/// A filler JPEG-like byte range: SOI, padding free of markers, EOI.
fn plain_stream(len: usize) -> Vec<u8> {
    assert!(len >= 4);
    let mut v = vec![0x11u8; len];
    v[0] = 0xff;
    v[1] = 0xd8;
    v[len - 2] = 0xff;
    v[len - 1] = 0xd9;
    v
}

#[test]
fn generic_scan_finds_streams_above_the_floor() {
    let big = GENERIC_MIN_CANDIDATE_BYTES + 100;
    let mut data = vec![0u8; 50];
    data.extend(plain_stream(big));
    data.extend(vec![0u8; 30]);
    let cands = scan_generic_candidates(&data);
    assert_eq!(cands.len(), 1);
    assert_eq!(cands[0].start, 50);
    assert_eq!(cands[0].end, 50 + big);
    assert_eq!(cands[0].byte_length, big);
}

#[test]
fn generic_scan_drops_streams_below_the_floor() {
    let mut data = vec![0u8; 20];
    data.extend(plain_stream(1000));
    let cands = scan_generic_candidates(&data);
    assert!(cands.is_empty());
}

#[test]
fn generic_candidates_come_largest_first() {
    let small = GENERIC_MIN_CANDIDATE_BYTES + 10;
    let large = GENERIC_MIN_CANDIDATE_BYTES + 5000;
    let mut data = plain_stream(small);
    data.extend(vec![0u8; 16]);
    data.extend(plain_stream(large));
    let cands = locate_embedded_candidates(&data, "cr2");
    assert_eq!(cands.len(), 2);
    assert_eq!(cands[0].byte_length, large);
    assert_eq!(cands[1].byte_length, small);
}

#[test]
fn walker_skips_end_marker_inside_application_segment() {
    // SOI, then an application segment whose payload contains what looks
    // like an end-of-image marker, then the real end.
    let mut data: Vec<u8> = vec![0xff, 0xd8];
    data.extend([0xff, 0xe1, 0x00, 0x06, 0xff, 0xd9, 0x00, 0x00]);
    data.extend([0xff, 0xd9]);
    let end = segment_walk_stream_end(&data, 0);
    assert_eq!(end, Some(data.len()));
}

#[test]
fn walker_handles_entropy_coded_scan_data() {
    // SOI, a start-of-scan header, entropy data with a stuffed 0xff byte,
    // a restart marker, a stray end-marker-like pair hidden by stuffing,
    // then the true end.
    let mut data: Vec<u8> = vec![0xff, 0xd8];
    data.extend([0xff, 0xda, 0x00, 0x04, 0x01, 0x02]);
    data.extend([0x10, 0x20, 0xff, 0x00, 0x30, 0xff, 0xd0, 0x40]);
    data.extend([0xff, 0xd9]);
    let end = segment_walk_stream_end(&data, 0);
    assert_eq!(end, Some(data.len()));
}

#[test]
fn walker_rejects_truncated_stream() {
    let data: Vec<u8> = vec![0xff, 0xd8, 0xff, 0xe1, 0x00, 0x10, 0x00];
    assert_eq!(segment_walk_stream_end(&data, 0), None);
}

#[test]
fn walker_candidates_respect_their_floor() {
    // A structurally complete stream below the walker floor is dropped.
    let mut data = vec![0u8; 8];
    data.extend([0xff, 0xd8, 0xff, 0xd9]);
    assert!(scan_walker_candidates(&data).is_empty());

    // Pad a complete stream above the floor with an application segment.
    let pad = NEF_MIN_CANDIDATE_BYTES + 200;
    let mut big: Vec<u8> = vec![0xff, 0xd8, 0xff, 0xe1];
    big.extend(((pad as u16).to_be_bytes()).to_vec());
    big.extend(vec![0x00u8; pad - 2]);
    big.extend([0xff, 0xd9]);
    let mut data2 = vec![0u8; 4];
    data2.extend(&big);
    let cands = scan_walker_candidates(&data2);
    assert_eq!(cands.len(), 1);
    assert_eq!(cands[0].start, 4);
    assert_eq!(cands[0].end, 4 + big.len());
}

#[test]
fn gated_scan_requires_the_vendor_magic() {
    let stream = plain_stream(RAF_MIN_CANDIDATE_BYTES + 50);
    let mut data = vec![0u8; 100];
    data.extend(&stream);
    assert!(!raf_has_magic(&data));
    assert!(scan_raf_candidates(&data).is_empty());

    let mut with_magic = b"FUJIFILMCCD-RAW".to_vec();
    with_magic.extend(vec![0u8; 85]);
    with_magic.extend(&stream);
    assert!(raf_has_magic(&with_magic));
    let cands = scan_raf_candidates(&with_magic);
    assert_eq!(cands.len(), 1);
    assert_eq!(cands[0].start, 100);
}

#[test]
fn gated_scan_ignores_streams_inside_the_header() {
    // A start-of-image marker before the fixed header offset is not a
    // candidate.
    let mut data = b"FUJIFILMCCD-RAW".to_vec();
    data.extend(vec![0u8; 5]);
    data.extend(plain_stream(RAF_MIN_CANDIDATE_BYTES + 50));
    let cands = scan_raf_candidates(&data);
    assert!(cands.is_empty());
}

#[test]
fn vendor_strategy_falls_back_to_generic() {
    // With a nef extension but no structurally complete stream, the
    // generic scan still finds the loose range.
    let big = GENERIC_MIN_CANDIDATE_BYTES + 64;
    // SOI followed by a non-marker byte: the walker rejects it at once,
    // but a later end marker satisfies the generic scan.
    let mut data = vec![0xffu8, 0xd8];
    data.extend(vec![0x22u8; big - 4]);
    data.extend([0xff, 0xd9]);
    assert!(scan_walker_candidates(&data).is_empty());
    let cands = locate_embedded_candidates(&data, "nef");
    assert_eq!(cands.len(), 1);
}

/// Encodes a noisy image as a JPEG; noise keeps the stream large.
fn noisy_jpeg(width: u32, height: u32, quality: u8) -> Vec<u8> {
    let mut img = image::RgbImage::new(width, height);
    let mut state: u32 = 0x12345678;
    for p in img.pixels_mut() {
        state = state.wrapping_mul(1664525).wrapping_add(1013904223);
        p.0 = [
            (state >> 24) as u8,
            (state >> 16) as u8,
            (state >> 8) as u8,
        ];
    }
    let mut out = std::io::Cursor::new(Vec::new());
    image::DynamicImage::ImageRgb8(img)
        .write_to(&mut out, image::ImageFormat::Jpeg)
        .expect("encode test jpeg");
    let mut bytes = out.into_inner();
    // Re-encode at the requested quality via the crate's encoder.
    let img2 = image::load_from_memory(&bytes).unwrap();
    let mut buf = Vec::new();
    img2.write_with_encoder(image::codecs::jpeg::JpegEncoder::new_with_quality(
        &mut buf, quality,
    ))
    .unwrap();
    bytes = buf;
    bytes
}

#[test]
fn raw_chain_reports_absent_without_any_embedded_stream() {
    let data = vec![0u8; 60000];
    let r = extract_embedded_preview(&data, "cr2", 1980, 60);
    assert!(matches!(r, Err(DecodeError::NoUsablePreview)));
    let r2 = generate_raw_preview(&data, None, "cr2");
    assert!(matches!(r2, Err(DecodeError::NoUsablePreview)));
}

#[test]
fn raw_chain_rejects_micro_thumbnails() {
    // One embedded JPEG above the size floor whose decoded dimensions are
    // below the usable floor: the candidate is rejected, not forced.
    let jpeg = noisy_jpeg(200, 150, 100);
    assert!(jpeg.len() > GENERIC_MIN_CANDIDATE_BYTES, "test stream too small");
    let mut data = vec![0u8; 32];
    data.extend(&jpeg);
    data.extend(vec![0u8; 32]);
    let r = extract_embedded_preview(&data, "cr2", 1980, 60);
    assert!(matches!(r, Err(DecodeError::NoUsablePreview)));
}

#[test]
fn raw_chain_accepts_a_usable_embedded_stream() {
    let jpeg = noisy_jpeg(640, 480, 95);
    assert!(jpeg.len() > GENERIC_MIN_CANDIDATE_BYTES, "test stream too small");
    let mut data = vec![0u8; 16];
    data.extend(&jpeg);
    data.extend(vec![0u8; 16]);
    let out = extract_embedded_preview(&data, "cr2", 1980, 60).expect("usable preview");
    let img = image::load_from_memory(&out).expect("output decodes");
    // 640x480 is between the pass-through and two-pass limits: one resize
    // into the bounding box.
    assert_eq!((img.width(), img.height()), (1980, 1485));
}

#[test]
fn raw_thumbnail_prefers_the_tool_preview() {
    let tool = noisy_jpeg(1000, 500, 90);
    let container = vec![0u8; 40000];
    let out = generate_raw_thumbnail(&container, Some(&tool), "nef").expect("tool path");
    let img = image::load_from_memory(&out).unwrap();
    // 1000x500 fits a single pass into the 200 box.
    assert_eq!((img.width(), img.height()), (200, 100));
}

#[test]
fn tool_selection_picks_the_largest_jpeg() {
    let entries: Vec<(String, u64)> = vec![
        ("img-preview1.jpg".to_string(), 100),
        ("img-preview2.jpeg".to_string(), 5000),
        ("notes.txt".to_string(), 90000),
        ("img-preview3.jpg".to_string(), 4999),
    ];
    assert_eq!(select_largest_preview_file(&entries), Some(1));
    let none: Vec<(String, u64)> = vec![("a.txt".to_string(), 5)];
    assert_eq!(select_largest_preview_file(&none), None);
    assert!(is_jpeg_name("x.jpg") && is_jpeg_name("x.jpeg") && !is_jpeg_name("x.png"));
}

#[test]
fn walker_delimits_a_real_encoded_stream_exactly() {
    // A real encoder-produced JPEG is a complete stream: the walker must
    // end exactly at its end-of-image marker even when padding follows.
    let jpeg = noisy_jpeg(500, 400, 95);
    assert!(jpeg.len() > NEF_MIN_CANDIDATE_BYTES, "test stream too small");
    let mut data = vec![0u8; 6];
    data.extend(&jpeg);
    data.extend(vec![0u8; 64]);
    let cands = scan_walker_candidates(&data);
    assert_eq!(cands.len(), 1);
    assert_eq!(cands[0].start, 6);
    assert_eq!(cands[0].end, 6 + jpeg.len());
    // The nef strategy hands that candidate to validation and rendering.
    let out = extract_embedded_preview(&data, "nef", 1980, 60).expect("walker candidate");
    let img = image::load_from_memory(&out).unwrap();
    assert_eq!((img.width(), img.height()), (1980, 1584));
}

#[test]
fn gated_strategy_extracts_from_a_signed_container() {
    let jpeg = noisy_jpeg(640, 480, 95);
    assert!(jpeg.len() > RAF_MIN_CANDIDATE_BYTES, "test stream too small");
    let mut data = b"FUJIFILMCCD-RAW".to_vec();
    data.extend(vec![0u8; 105]);
    data.extend(&jpeg);
    let cands = scan_raf_candidates(&data);
    assert_eq!(cands.len(), 1);
    assert_eq!(cands[0].start, 120);
    let out = extract_embedded_preview(&data, "raf", 200, 50).expect("gated candidate");
    let img = image::load_from_memory(&out).unwrap();
    assert_eq!((img.width(), img.height()), (200, 150));
}
