use image_find::cli::{LogLevel, LogLevelFilter};
use image_find::media::{extension_of, is_any_raw_ext, media_class_of_path, MediaClass};
use image_find::scheduler::{
    count_item_miss, preview_pass_gate, scan_item_decision, thumbnail_pass_end,
    thumbnail_pass_gate, ItemDecision, WorkerFlags,
};
use image_find::search::{html_escape, parse_search_terms};
use image_find::strutil::{ascii_lowercase, str_eq};

#[test]
fn activity_flag_pauses_the_thumbnail_stage() {
    let busy = WorkerFlags { live_traffic: true, thumbnail_stage_exhausted: false };
    let idle = WorkerFlags { live_traffic: false, thumbnail_stage_exhausted: false };
    assert!(!thumbnail_pass_gate(busy));
    assert!(thumbnail_pass_gate(idle));
}

#[test]
fn activity_flag_blocks_every_generate_decision() {
    // While the flag is held true, a scanning pass never decides to
    // generate, whatever the cache says.
    let mut generated = 0;
    for cached in [false, true, false, false] {
        match scan_item_decision(true, cached) {
            ItemDecision::Generate => generated += 1,
            _ => {}
        }
    }
    assert_eq!(generated, 0);
    // Once the flag clears, misses generate again.
    assert_eq!(scan_item_decision(false, false), ItemDecision::Generate);
    assert_eq!(scan_item_decision(false, true), ItemDecision::SkipCached);
}

#[test]
fn preview_stage_waits_for_thumbnail_exhaustion() {
    let waiting = WorkerFlags { live_traffic: false, thumbnail_stage_exhausted: false };
    let ready = WorkerFlags { live_traffic: false, thumbnail_stage_exhausted: true };
    let ready_but_busy = WorkerFlags { live_traffic: true, thumbnail_stage_exhausted: true };
    assert!(!preview_pass_gate(waiting));
    assert!(preview_pass_gate(ready));
    assert!(!preview_pass_gate(ready_but_busy));
}

#[test]
fn exhaustion_needs_a_clean_pass_with_no_misses() {
    assert!(thumbnail_pass_end(false, 0));
    assert!(!thumbnail_pass_end(false, 1));
    assert!(!thumbnail_pass_end(true, 0));
    assert!(!thumbnail_pass_end(true, 3));
}

#[test]
fn miss_counting_follows_generate_decisions() {
    let mut misses = 0u64;
    misses = count_item_miss(misses, ItemDecision::SkipCached);
    assert_eq!(misses, 0);
    misses = count_item_miss(misses, ItemDecision::Generate);
    misses = count_item_miss(misses, ItemDecision::Generate);
    assert_eq!(misses, 2);
    misses = count_item_miss(misses, ItemDecision::AbortPass);
    assert_eq!(misses, 2);
}

#[test]
fn extensions_dispatch_to_their_chains() {
    assert_eq!(media_class_of_path("/x/a.NEF"), MediaClass::Raw);
    assert_eq!(media_class_of_path("/x/a.cr2"), MediaClass::Raw);
    assert_eq!(media_class_of_path("/x/a.tiff"), MediaClass::Tiff);
    assert_eq!(media_class_of_path("/x/a.TIF"), MediaClass::Tiff);
    assert_eq!(media_class_of_path("/x/a.jpg"), MediaClass::Raster);
    assert_eq!(media_class_of_path("/x/a.webp"), MediaClass::Raster);
    assert_eq!(media_class_of_path("/x/a.x3f"), MediaClass::Raster);
    assert_eq!(media_class_of_path("/x/a.mp4"), MediaClass::Video);
    assert_eq!(media_class_of_path("/x/a.ogv"), MediaClass::Video);
    assert_eq!(media_class_of_path("/x/a.txt"), MediaClass::Unsupported);
    assert_eq!(media_class_of_path("/x/noext"), MediaClass::Unsupported);
    assert_eq!(media_class_of_path("/x.dir/noext"), MediaClass::Unsupported);
    assert_eq!(media_class_of_path("/x/.hidden"), MediaClass::Unsupported);
}

#[test]
fn extension_extraction_cases() {
    assert_eq!(extension_of("/a/b.c/file.CR2").as_deref(), Some("CR2"));
    assert_eq!(extension_of("file.tar.gz").as_deref(), Some("gz"));
    assert_eq!(extension_of("file."), Some(String::new()));
    assert_eq!(extension_of("/a/b.c/file"), None);
    assert_eq!(extension_of(".bashrc"), None);
    assert_eq!(extension_of(""), None);
}

#[test]
fn raw_extension_fallback_set() {
    assert!(is_any_raw_ext("nef"));
    assert!(is_any_raw_ext("x3f"));
    assert!(!is_any_raw_ext("jpg"));
    assert!(!is_any_raw_ext("tif"));
}

#[test]
fn log_levels_map_to_their_filters() {
    assert_eq!(LogLevel::Error.to_log_level_filter(), LogLevelFilter::Error);
    assert_eq!(LogLevel::Warn.to_log_level_filter(), LogLevelFilter::Warn);
    assert_eq!(LogLevel::Info.to_log_level_filter(), LogLevelFilter::Info);
    assert_eq!(LogLevel::Debug.to_log_level_filter(), LogLevelFilter::Debug);
    assert_eq!(LogLevel::Trace.to_log_level_filter(), LogLevelFilter::Trace);
}

#[test]
fn string_helpers() {
    assert!(str_eq("abc", "abc"));
    assert!(!str_eq("abc", "abd"));
    assert!(!str_eq("abc", "ab"));
    assert_eq!(ascii_lowercase("NeF"), "nef");
    assert_eq!(ascii_lowercase("tiff"), "tiff");
    assert_eq!(ascii_lowercase("A-Z_0"), "a-z_0");
}

#[test]
fn html_escaping_covers_the_five_significant_characters() {
    assert_eq!(
        html_escape("<a href=\"x\">&'"),
        "&lt;a href=&quot;x&quot;&gt;&amp;&#x27;"
    );
    assert_eq!(html_escape("plain text"), "plain text");
    assert_eq!(html_escape(""), "");
}

#[test]
fn search_terms_split_on_whitespace_outside_quotes() {
    let terms = parse_search_terms("foo  bar\tbaz");
    assert_eq!(terms, vec!["foo", "bar", "baz"]);
    let quoted = parse_search_terms("\"hello world\" baz");
    assert_eq!(quoted, vec!["hello world", "baz"]);
    let empty = parse_search_terms("   \t \n ");
    assert!(empty.is_empty());
    let unclosed = parse_search_terms("\"a b");
    assert_eq!(unclosed, vec!["a b"]);
    let empty_quotes = parse_search_terms("\"\"");
    assert!(empty_quotes.is_empty());
    let mixed = parse_search_terms("pre\"mid dle\"post");
    assert_eq!(mixed, vec!["pre", "mid dle", "post"]);
}
