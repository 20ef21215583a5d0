//! Cache entry naming: how a cache key becomes the entry's file name.
//!
//! An entry lives at `<tier_root>/<key>.jpg`; the presence of that file is
//! the cache's entire persisted state. The tier roots themselves come from
//! the runtime configuration, and reading and writing the files is the
//! caller's; the name under a root is fixed here.

use vstd::prelude::*;

verus! {

/// The file-name suffix of every cache entry.
pub open spec fn spec_cache_entry_suffix() -> Seq<char> {
    seq!['.', 'j', 'p', 'g']
}

/// The file name of a cache entry under its tier root: the key followed by
/// the entry suffix.
pub open spec fn spec_cache_entry_file_name(key: Seq<char>) -> Seq<char> {
    key + spec_cache_entry_suffix()
}

/// Builds the file name of the cache entry for `key`.
pub fn cache_entry_file_name(key: &str) -> (r: String)
    ensures
        r@ == spec_cache_entry_file_name(key@),
{
    let mut name = String::from_str(key);
    name.push('.');
    name.push('j');
    name.push('p');
    name.push('g');
    proof {
        assert(name@ =~= spec_cache_entry_file_name(key@));
    }
    name
}

} // verus!

// === Transport encoding =====================================================

verus! {

/// The standard padded base64 rendering of a byte sequence, as the
/// `base64` crate's standard engine computes it: a pure function of the
/// bytes.
pub uninterp spec fn spec_base64_of(bytes: Seq<u8>) -> Seq<char>;

/// Relies on the `base64` crate's `STANDARD` engine through
/// `Engine::encode`: the encoding is a pure function of the bytes, four
/// output characters for every three input bytes, padded.
#[verifier::external_body]
fn encode_base64(bytes: &[u8]) -> (r: String)
    ensures
        r@ == spec_base64_of(bytes@),
        r@.len() == 4 * ((bytes@.len() + 2) / 3),
{
    base64::Engine::encode(&base64::engine::general_purpose::STANDARD, bytes)
}

/// Renders a cache entry's bytes in the transport encoding interactive
/// responses carry thumbnails in.
pub fn thumbnail_to_base64(jpeg_bytes: &Vec<u8>) -> (r: String)
    ensures
        r@ == spec_base64_of(jpeg_bytes@),
        r@.len() == 4 * ((jpeg_bytes@.len() + 2) / 3),
{
    encode_base64(jpeg_bytes.as_slice())
}

} // verus!
