//! Media classes and the extension dispatch that selects a decode chain.

use vstd::prelude::*;

use crate::strutil::{ascii_lowercase, spec_ascii_lower, str_eq};

verus! {

/// The decode chain a source file dispatches to, keyed by its extension.
#[derive(Clone, Copy, PartialEq, Eq, Structural, Debug)]
pub enum MediaClass {
    /// Camera RAW container with a dedicated extraction chain.
    Raw,
    /// TIFF file with a dedicated decoder and explicit colorspace handling.
    Tiff,
    /// Standard raster format, or a RAW format without a dedicated chain,
    /// opened by the generic raster decoder.
    Raster,
    /// Video container; a single frame is extracted by an external tool.
    Video,
    /// No decode chain exists for this extension.
    Unsupported,
}

/// `i` is the index of the dot introducing `path`'s extension: a dot inside
/// the last path segment, not the segment's first character, with nothing
/// but extension characters after it.
pub open spec fn spec_is_ext_dot(path: Seq<char>, i: int) -> bool {
    &&& 0 < i < path.len()
    &&& path[i] == '.'
    &&& path[i - 1] != '/'
    &&& forall|j: int| i < j < path.len() ==> path[j] != '/' && path[j] != '.'
}

/// Whether `path` has an extension at all.
pub open spec fn spec_has_extension(path: Seq<char>) -> bool {
    exists|i: int| spec_is_ext_dot(path, i)
}

/// The characters of `path`'s extension, after the final dot.
pub open spec fn spec_extension(path: Seq<char>) -> Seq<char>
    recommends
        spec_has_extension(path),
{
    let i = choose|i: int| spec_is_ext_dot(path, i);
    path.subrange(i + 1, path.len() as int)
}

/// At most one index can introduce the extension.
pub proof fn lemma_ext_dot_unique(path: Seq<char>, i1: int, i2: int)
    requires
        spec_is_ext_dot(path, i1),
        spec_is_ext_dot(path, i2),
    ensures
        i1 == i2,
{
    if i1 < i2 {
        assert(path[i2] == '.');
    } else if i2 < i1 {
        assert(path[i1] == '.');
    }
}

/// Extracts `path`'s extension: the characters after the last dot of the
/// last path segment, provided that dot is not the segment's first
/// character. Returns `None` for a path without such a dot.
pub fn extension_of(path: &str) -> (r: Option<String>)
    ensures
        match r {
            Some(ext) => spec_has_extension(path@) && ext@ == spec_extension(path@),
            None => !spec_has_extension(path@),
        },
{
    let n = path.unicode_len();
    let mut k: usize = n;
    while k > 0
        invariant
            n == path@.len(),
            k <= n,
            forall|j: int| k <= j < n ==> path@[j] != '/' && path@[j] != '.',
        decreases k,
    {
        let c = path.get_char(k - 1);
        if c == '/' {
            proof {
                assert forall|i: int| !spec_is_ext_dot(path@, i) by {
                    if spec_is_ext_dot(path@, i) {
                        if i < k - 1 {
                            assert(path@[k - 1] != '/');
                        } else {
                            assert(path@[i] != '.');
                        }
                    }
                }
            }
            return None;
        }
        if c == '.' {
            if k == 1 || path.get_char(k - 2) == '/' {
                proof {
                    assert forall|i: int| !spec_is_ext_dot(path@, i) by {
                        if spec_is_ext_dot(path@, i) {
                            lemma_is_ext_dot_at(path@, i, k - 1 as int);
                        }
                    }
                }
                return None;
            }
            let ext = path.substring_char(k, n);
            proof {
                assert(spec_is_ext_dot(path@, k - 1));
                let w = choose|i: int| spec_is_ext_dot(path@, i);
                lemma_ext_dot_unique(path@, w, k - 1);
            }
            return Some(String::from_str(ext));
        }
        k = k - 1;
    }
    proof {
        assert forall|i: int| !spec_is_ext_dot(path@, i) by {
            if spec_is_ext_dot(path@, i) {
                assert(path@[i] != '.');
            }
        }
    }
    None
}

/// Any candidate extension dot must sit at the position the scan found.
proof fn lemma_is_ext_dot_at(path: Seq<char>, i: int, found: int)
    requires
        spec_is_ext_dot(path, i),
        0 <= found < path.len(),
        path[found] == '.',
        forall|j: int| found < j < path.len() ==> path[j] != '/' && path[j] != '.',
    ensures
        i == found,
{
    if i < found {
        assert(path[found] == '.');
    } else if found < i {
        assert(path[i] != '.');
    }
}

/// Extensions of the RAW formats with a dedicated extraction chain.
pub open spec fn spec_is_primary_raw_ext(e: Seq<char>) -> bool {
    ||| e == "nef"@
    ||| e == "cr2"@
    ||| e == "cr3"@
    ||| e == "arw"@
    ||| e == "orf"@
    ||| e == "rw2"@
    ||| e == "raf"@
    ||| e == "dng"@
}

/// Extensions of further RAW formats that first try the generic raster
/// decoder and only fall back to RAW extraction.
pub open spec fn spec_is_secondary_raw_ext(e: Seq<char>) -> bool {
    ||| e == "3fr"@
    ||| e == "ari"@
    ||| e == "bay"@
    ||| e == "crw"@
    ||| e == "dcr"@
    ||| e == "erf"@
    ||| e == "fff"@
    ||| e == "iiq"@
    ||| e == "k25"@
    ||| e == "kdc"@
    ||| e == "mdc"@
    ||| e == "mos"@
    ||| e == "mrw"@
    ||| e == "pef"@
    ||| e == "ptx"@
    ||| e == "pxn"@
    ||| e == "r3d"@
    ||| e == "rwl"@
    ||| e == "sr2"@
    ||| e == "srf"@
    ||| e == "srw"@
    ||| e == "x3f"@
}

/// Extensions of the TIFF class.
pub open spec fn spec_is_tiff_ext(e: Seq<char>) -> bool {
    e == "tiff"@ || e == "tif"@
}

/// Extensions of the standard raster formats.
pub open spec fn spec_is_standard_raster_ext(e: Seq<char>) -> bool {
    ||| e == "jpg"@
    ||| e == "jpeg"@
    ||| e == "png"@
    ||| e == "gif"@
    ||| e == "bmp"@
    ||| e == "webp"@
}

/// Extensions of the video class.
pub open spec fn spec_is_video_ext(e: Seq<char>) -> bool {
    ||| e == "mp4"@
    ||| e == "avi"@
    ||| e == "mov"@
    ||| e == "wmv"@
    ||| e == "flv"@
    ||| e == "webm"@
    ||| e == "mkv"@
    ||| e == "m4v"@
    ||| e == "3gp"@
    ||| e == "ogv"@
}

/// The class a lower-case extension dispatches to.
pub open spec fn spec_media_class(e: Seq<char>) -> MediaClass {
    if spec_is_primary_raw_ext(e) {
        MediaClass::Raw
    } else if spec_is_tiff_ext(e) {
        MediaClass::Tiff
    } else if spec_is_standard_raster_ext(e) || spec_is_secondary_raw_ext(e) {
        MediaClass::Raster
    } else if spec_is_video_ext(e) {
        MediaClass::Video
    } else {
        MediaClass::Unsupported
    }
}

/// Classifies a lower-case extension.
pub fn media_class_of_ext(e: &str) -> (c: MediaClass)
    ensures
        c == spec_media_class(e@),
{
    if str_eq(e, "nef") || str_eq(e, "cr2") || str_eq(e, "cr3") || str_eq(e, "arw") || str_eq(
        e,
        "orf",
    ) || str_eq(e, "rw2") || str_eq(e, "raf") || str_eq(e, "dng") {
        MediaClass::Raw
    } else if str_eq(e, "tiff") || str_eq(e, "tif") {
        MediaClass::Tiff
    } else if str_eq(e, "jpg") || str_eq(e, "jpeg") || str_eq(e, "png") || str_eq(e, "gif")
        || str_eq(e, "bmp") || str_eq(e, "webp") {
        MediaClass::Raster
    } else if str_eq(e, "3fr") || str_eq(e, "ari") || str_eq(e, "bay") || str_eq(e, "crw")
        || str_eq(e, "dcr") || str_eq(e, "erf") || str_eq(e, "fff") || str_eq(e, "iiq") || str_eq(
        e,
        "k25",
    ) || str_eq(e, "kdc") || str_eq(e, "mdc") || str_eq(e, "mos") || str_eq(e, "mrw") || str_eq(
        e,
        "pef",
    ) || str_eq(e, "ptx") || str_eq(e, "pxn") || str_eq(e, "r3d") || str_eq(e, "rwl") || str_eq(
        e,
        "sr2",
    ) || str_eq(e, "srf") || str_eq(e, "srw") || str_eq(e, "x3f") {
        MediaClass::Raster
    } else if str_eq(e, "mp4") || str_eq(e, "avi") || str_eq(e, "mov") || str_eq(e, "wmv")
        || str_eq(e, "flv") || str_eq(e, "webm") || str_eq(e, "mkv") || str_eq(e, "m4v") || str_eq(
        e,
        "3gp",
    ) || str_eq(e, "ogv") {
        MediaClass::Video
    } else {
        MediaClass::Unsupported
    }
}

/// Whether a lower-case extension belongs to any RAW format, dedicated chain
/// or not; the raster chain uses this to decide whether a failed generic
/// decode may still fall back to RAW extraction.
pub fn is_any_raw_ext(e: &str) -> (r: bool)
    ensures
        r == (spec_is_primary_raw_ext(e@) || spec_is_secondary_raw_ext(e@)),
{
    if str_eq(e, "nef") || str_eq(e, "cr2") || str_eq(e, "cr3") || str_eq(e, "arw") || str_eq(
        e,
        "orf",
    ) || str_eq(e, "rw2") || str_eq(e, "raf") || str_eq(e, "dng") {
        true
    } else if str_eq(e, "3fr") || str_eq(e, "ari") || str_eq(e, "bay") || str_eq(e, "crw")
        || str_eq(e, "dcr") || str_eq(e, "erf") || str_eq(e, "fff") || str_eq(e, "iiq") || str_eq(
        e,
        "k25",
    ) || str_eq(e, "kdc") || str_eq(e, "mdc") || str_eq(e, "mos") || str_eq(e, "mrw") || str_eq(
        e,
        "pef",
    ) || str_eq(e, "ptx") || str_eq(e, "pxn") || str_eq(e, "r3d") || str_eq(e, "rwl") || str_eq(
        e,
        "sr2",
    ) || str_eq(e, "srf") || str_eq(e, "srw") || str_eq(e, "x3f") {
        true
    } else {
        false
    }
}

/// The class of a whole path: its extension, lowered, classified; a path
/// without an extension is unsupported.
pub open spec fn spec_media_class_of_path(path: Seq<char>) -> MediaClass {
    if spec_has_extension(path) {
        spec_media_class(spec_ascii_lower(spec_extension(path)))
    } else {
        MediaClass::Unsupported
    }
}

/// Determines the decode chain for a source path from its extension.
pub fn media_class_of_path(path: &str) -> (c: MediaClass)
    ensures
        c == spec_media_class_of_path(path@),
{
    match extension_of(path) {
        Some(ext) => {
            let lowered = ascii_lowercase(ext.as_str());
            media_class_of_ext(lowered.as_str())
        },
        None => MediaClass::Unsupported,
    }
}

} // verus!
