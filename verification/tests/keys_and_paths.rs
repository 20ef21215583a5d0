use image_find::cache::{cache_entry_file_name, thumbnail_to_base64};
use image_find::keys::generate_cache_key;
use image_find::paths::normalize_source_path;

#[test]
fn cache_key_is_sha256_hex_of_path_bytes() {
    // SHA-256 of "abc" is a published test vector.
    let key = generate_cache_key("abc");
    assert_eq!(
        key,
        "ba7816bf8f01cfea414140de5dae2223b00361a396177a9cb410ff61f20015ad"
    );
    let empty = generate_cache_key("");
    assert_eq!(
        empty,
        "e3b0c44298fc1c149afbf4c8996fb92427ae41e4649b934ca495991b7852b855"
    );
}

#[test]
fn cache_key_is_deterministic() {
    let a = generate_cache_key("/photos/2021/img_0001.cr2");
    let b = generate_cache_key("/photos/2021/img_0001.cr2");
    assert_eq!(a, b);
    assert_eq!(a.len(), 64);
    assert!(a.chars().all(|c| c.is_ascii_hexdigit()));
}

#[test]
fn distinct_paths_get_distinct_keys() {
    let a = generate_cache_key("/photos/a.jpg");
    let b = generate_cache_key("/photos/b.jpg");
    assert_ne!(a, b);
}

#[test]
fn sidecar_suffix_is_stripped() {
    assert_eq!(normalize_source_path("/a/b/img.cr2.xmp"), "/a/b/img.cr2");
    assert_eq!(normalize_source_path("/a/b/img.cr2"), "/a/b/img.cr2");
    assert_eq!(normalize_source_path("img.xmp"), "img");
    assert_eq!(normalize_source_path(".xmp"), "");
    assert_eq!(normalize_source_path("xmp"), "xmp");
    // Only one suffix is stripped.
    assert_eq!(normalize_source_path("a.xmp.xmp"), "a.xmp");
}

#[test]
fn sidecar_and_media_share_one_cache_key() {
    let media = normalize_source_path("/a/b/img.cr2");
    let sidecar = normalize_source_path("/a/b/img.cr2.xmp");
    assert_eq!(media, sidecar);
    assert_eq!(
        generate_cache_key(&media),
        generate_cache_key(&sidecar)
    );
    let other = generate_cache_key(&normalize_source_path("/a/b/other.cr2"));
    assert_ne!(generate_cache_key(&media), other);
}

#[test]
fn cache_entry_name_appends_jpg_suffix() {
    assert_eq!(cache_entry_file_name("abc123"), "abc123.jpg");
    assert_eq!(cache_entry_file_name(""), ".jpg");
}

#[test]
fn thumbnail_transport_encoding_is_standard_base64() {
    let bytes: Vec<u8> = b"Man".to_vec();
    assert_eq!(thumbnail_to_base64(&bytes), "TWFu");
    let bytes2: Vec<u8> = b"M".to_vec();
    assert_eq!(thumbnail_to_base64(&bytes2), "TQ==");
    // Cross-check against the encoder crate itself.
    let data: Vec<u8> = vec![0, 1, 2, 3, 254, 255];
    let expect = base64::Engine::encode(&base64::engine::general_purpose::STANDARD, &data);
    assert_eq!(thumbnail_to_base64(&data), expect);
}
