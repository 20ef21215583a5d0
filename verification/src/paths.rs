//! Source path handling: sidecar normalization, extension extraction and the
//! media class an extension dispatches to.
//!
//! A `.xmp`-suffixed path names a sidecar file; the derivative always
//! corresponds to the underlying media file, so the suffix is stripped before
//! any cache or decode operation.

use vstd::prelude::*;

verus! {

/// The sidecar suffix as a character sequence.
pub open spec fn spec_sidecar_suffix() -> Seq<char> {
    seq!['.', 'x', 'm', 'p']
}

/// Whether a path carries the sidecar suffix.
pub open spec fn spec_is_sidecar_path(path: Seq<char>) -> bool {
    path.len() >= 4 && path.subrange(path.len() - 4, path.len() as int) == spec_sidecar_suffix()
}

/// A path with its sidecar suffix stripped, if it carried one.
pub open spec fn spec_normalized_path(path: Seq<char>) -> Seq<char> {
    if spec_is_sidecar_path(path) {
        path.subrange(0, path.len() - 4)
    } else {
        path
    }
}

/// Strips the sidecar suffix from `path`, if present; any other path comes
/// back unchanged.
pub fn normalize_source_path(path: &str) -> (r: String)
    ensures
        r@ == spec_normalized_path(path@),
{
    let n = path.unicode_len();
    if n >= 4 && path.get_char(n - 4) == '.' && path.get_char(n - 3) == 'x' && path.get_char(
        n - 2,
    ) == 'm' && path.get_char(n - 1) == 'p' {
        proof {
            assert(path@.subrange(path@.len() - 4, path@.len() as int) =~= spec_sidecar_suffix());
        }
        String::from_str(path.substring_char(0, n - 4))
    } else {
        proof {
            if path@.len() >= 4 {
                let tail = path@.subrange(path@.len() - 4, path@.len() as int);
                if tail == spec_sidecar_suffix() {
                    assert(path@[path@.len() - 4] == tail[0]);
                    assert(path@[path@.len() - 3] == tail[1]);
                    assert(path@[path@.len() - 2] == tail[2]);
                    assert(path@[path@.len() - 1] == tail[3]);
                }
            }
        }
        String::from_str(path)
    }
}

/// A media path and its sidecar share one cache identity: appending the
/// sidecar suffix to a media path normalizes back to the media path itself,
/// so both resolve to the same cache key.
pub proof fn lemma_sidecar_shares_media_identity(media: Seq<char>)
    requires
        !spec_is_sidecar_path(media),
    ensures
        spec_normalized_path(media + spec_sidecar_suffix()) == spec_normalized_path(media),
{
    let sidecar = media + spec_sidecar_suffix();
    assert(sidecar.subrange(sidecar.len() - 4, sidecar.len() as int) =~= spec_sidecar_suffix());
    assert(sidecar.subrange(0, sidecar.len() - 4) =~= media);
}

} // verus!

// === Cache identity =========================================================

verus! {

/// A media path and its sidecar resolve to the identical cache key: the
/// key is derived from the normalized path's UTF-8 bytes, and both
/// normalize to the media path.
pub proof fn lemma_sidecar_shares_cache_key(media: Seq<char>)
    requires
        !spec_is_sidecar_path(media),
    ensures
        crate::keys::spec_cache_key_of_bytes(
            vstd::utf8::encode_utf8(spec_normalized_path(media + spec_sidecar_suffix())),
        ) == crate::keys::spec_cache_key_of_bytes(
            vstd::utf8::encode_utf8(spec_normalized_path(media)),
        ),
{
    lemma_sidecar_shares_media_identity(media);
}

} // verus!
