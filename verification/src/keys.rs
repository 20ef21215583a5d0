//! Cache key derivation: a deterministic one-way function from a normalized
//! source path to the fixed-length hexadecimal name of its cache entry.

use sha2::Digest;
use vstd::string::StringSliceAdditionalSpecFns;
use vstd::prelude::*;

verus! {

/// The 32-byte SHA-256 digest of a byte sequence. The digest itself is
/// computed by the `sha2` crate; this name only fixes that equal inputs have
/// equal digests, which is all key derivation needs.
pub uninterp spec fn sha256_of(bytes: Seq<u8>) -> Seq<u8>;

/// Relies on `sha2::Sha256` through `Digest::digest`: the SHA-256 digest is a
/// pure function of the input bytes and is always 32 bytes long.
#[verifier::external_body]
fn sha256_digest(bytes: &[u8]) -> (digest: Vec<u8>)
    ensures
        digest@ == sha256_of(bytes@),
        digest@.len() == 32,
{
    sha2::Sha256::digest(bytes).to_vec()
}

/// The ASCII code of the lower-case hexadecimal digit for `n`.
pub open spec fn spec_hex_digit_ascii(n: u8) -> u8
    recommends
        n < 16,
{
    if n < 10 {
        (n + 0x30) as u8
    } else {
        (n + 0x57) as u8
    }
}

/// The ASCII codes of the lower-case hexadecimal rendering of `bytes`, two
/// digits per byte, high nibble first.
pub open spec fn spec_hex_ascii(bytes: Seq<u8>) -> Seq<u8> {
    Seq::new(
        bytes.len() * 2,
        |i: int|
            if i % 2 == 0 {
                spec_hex_digit_ascii(bytes[i / 2] >> 4)
            } else {
                spec_hex_digit_ascii(bytes[i / 2] & 0xf)
            },
    )
}

/// The lower-case hexadecimal rendering of `bytes` as characters.
pub open spec fn spec_hex_chars(bytes: Seq<u8>) -> Seq<char> {
    Seq::new(spec_hex_ascii(bytes).len() as nat, |i: int| spec_hex_ascii(bytes)[i] as char)
}

/// Relies on `String::from_utf8`: a buffer of bytes below 0x80 is valid
/// UTF-8 and decodes to exactly those code points.
#[verifier::external_body]
fn ascii_to_string(bytes: Vec<u8>) -> (r: String)
    requires
        forall|i: int| 0 <= i < bytes@.len() ==> bytes@[i] < 0x80,
    ensures
        r@.len() == bytes@.len(),
        forall|i: int| 0 <= i < bytes@.len() ==> r@[i] == bytes@[i] as char,
{
    String::from_utf8(bytes).unwrap_or_default()
}

/// Renders `bytes` as lower-case hexadecimal, two digits per byte.
fn hex_encode(bytes: &Vec<u8>) -> (r: String)
    ensures
        r@ == spec_hex_chars(bytes@),
        r@.len() == bytes@.len() * 2,
{
    let mut out: Vec<u8> = Vec::new();
    let mut i: usize = 0;
    while i < bytes.len()
        invariant
            i <= bytes@.len(),
            out@.len() == i * 2,
            forall|j: int| 0 <= j < out@.len() ==> out@[j] == spec_hex_ascii(bytes@)[j],
            forall|j: int| 0 <= j < out@.len() ==> out@[j] < 0x80,
        decreases bytes@.len() - i,
    {
        let b = bytes[i];
        let hi = b >> 4;
        let lo = b & 0xf;
        proof {
            assert(b >> 4 < 16 && b & 0xf < 16) by (bit_vector);
        }
        let hi_digit: u8 = if hi < 10 {
            hi + 0x30
        } else {
            hi + 0x57
        };
        let lo_digit: u8 = if lo < 10 {
            lo + 0x30
        } else {
            lo + 0x57
        };
        out.push(hi_digit);
        out.push(lo_digit);
        i = i + 1;
    }
    let r = ascii_to_string(out);
    proof {
        assert(r@ =~= spec_hex_chars(bytes@));
    }
    r
}

/// The cache key derived from the UTF-8 bytes of a normalized source path:
/// the SHA-256 digest of those bytes, rendered as 64 lower-case hexadecimal
/// characters.
pub open spec fn spec_cache_key_of_bytes(path_bytes: Seq<u8>) -> Seq<char> {
    spec_hex_chars(sha256_of(path_bytes))
}

/// Derives the cache key for a source path: the SHA-256 digest of the path's
/// UTF-8 bytes, as 64 lower-case hexadecimal characters.
///
/// Callers must pass the path with any sidecar suffix already stripped, or
/// requests for the same logical asset will miss each other's cache entries.
pub fn generate_cache_key(file_path: &str) -> (key: String)
    ensures
        key@ == spec_cache_key_of_bytes(file_path.spec_bytes()),
        key@.len() == 64,
{
    let bytes = file_path.as_bytes();
    let digest = sha256_digest(bytes);
    hex_encode(&digest)
}

/// Key derivation is deterministic: keys derived from the same path bytes
/// are equal, in every call and in every process.
pub proof fn lemma_cache_key_deterministic(key1: Seq<char>, key2: Seq<char>, path_bytes: Seq<u8>)
    requires
        key1 == spec_cache_key_of_bytes(path_bytes),
        key2 == spec_cache_key_of_bytes(path_bytes),
    ensures
        key1 == key2,
{
}

} // verus!
