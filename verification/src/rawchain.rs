//! The RAW decode chain: a high-fidelity preview extracted by an external
//! tool is preferred; when the tool produced nothing usable, the
//! embedded-preview locator works on the container bytes; when that fails
//! too, generation fails. A RAW container is never handed to the generic
//! raster decoder.
//!
//! Running the external tool is the caller's job: the chain takes the
//! tool's output, if any, as a plain argument.

use vstd::prelude::*;

use crate::locator::spec_located_multiset;
use crate::raster::{
    extract_embedded_preview, scale_jpeg_bytes, spec_candidate_usable, spec_decoded_dims,
    spec_jpeg_signature, spec_policy_output_dims, DecodeError,
};
use crate::tier::{
    PREVIEW_JPEG_QUALITY, PREVIEW_MAX_DIMENSION, THUMBNAIL_JPEG_QUALITY, THUMBNAIL_MAX_DIMENSION,
};

verus! {

/// The external tool's output is viable: it decodes with nonzero
/// dimensions.
pub open spec fn spec_tool_preview_viable(tool: Option<Seq<u8>>) -> bool {
    match tool {
        Some(p) => match spec_decoded_dims(p) {
            Some(d) => d.0 >= 1 && d.1 >= 1,
            None => false,
        },
        None => false,
    }
}

/// The tool path rendered `out`: the tool's bytes decode, with nonzero
/// dimensions, and `out` is their policy rendering into `bound`.
pub open spec fn spec_tool_path_output(p: Seq<u8>, bound: u32, out: Seq<u8>) -> bool {
    match spec_decoded_dims(p) {
        Some(d) => d.0 >= 1 && d.1 >= 1 && spec_decoded_dims(out) == Some(
            spec_policy_output_dims(d.0, d.1, bound),
        ),
        None => false,
    }
}

/// Every candidate the locator yields for this buffer is rejected at
/// decode time.
pub open spec fn spec_all_candidates_unusable(raw: Seq<u8>, ext: Seq<char>) -> bool {
    forall|c: crate::locator::EmbeddedJpegCandidate|
        #[trigger] spec_located_multiset(raw, ext).contains(c) ==> !spec_candidate_usable(raw, c)
}

/// A successful RAW generation: either the external tool's preview was
/// rendered, or a usable embedded candidate was.
pub open spec fn spec_raw_ok(
    raw: Seq<u8>,
    tool: Option<Seq<u8>>,
    ext: Seq<char>,
    bound: u32,
    out: Seq<u8>,
) -> bool {
    ||| (tool matches Some(p) && spec_tool_path_output(p, bound, out))
    ||| (exists|c: crate::locator::EmbeddedJpegCandidate|
        #[trigger] spec_located_multiset(raw, ext).contains(c) && spec_candidate_usable(raw, c)
            && match spec_decoded_dims(raw.subrange(c.start as int, c.end as int)) {
            Some(d) => spec_decoded_dims(out) == Some(spec_policy_output_dims(d.0, d.1, bound)),
            None => false,
        })
}

/// A failed RAW generation: the whole chain was exhausted, and the failure
/// is `NoUsablePreview` exactly when every located candidate was rejected.
pub open spec fn spec_raw_err(raw: Seq<u8>, ext: Seq<char>, e: DecodeError) -> bool {
    &&& (e == DecodeError::NoUsablePreview || e == DecodeError::EncodeFailed)
    &&& (e == DecodeError::NoUsablePreview <==> spec_all_candidates_unusable(raw, ext))
}

/// Runs the RAW chain into a bounding dimension and quality.
fn generate_raw_derivative(
    raw_bytes: &[u8],
    tool_preview: Option<&Vec<u8>>,
    ext_lower: &str,
    bound: u32,
    quality: u8,
) -> (r: Result<Vec<u8>, DecodeError>)
    requires
        1 <= bound <= 65535,
        1 <= quality <= 100,
    ensures
        match r {
            Ok(out) => spec_raw_ok(
                raw_bytes@,
                match tool_preview {
                    Some(p) => Some(p@),
                    None => None,
                },
                ext_lower@,
                bound,
                out@,
            ),
            Err(e) => spec_raw_err(raw_bytes@, ext_lower@, e),
        },
        r matches Ok(out) ==> spec_jpeg_signature(out@),
        r is Ok <==> (spec_tool_preview_viable(
            match tool_preview {
                Some(p) => Some(p@),
                None => None,
            },
        ) || !spec_all_candidates_unusable(raw_bytes@, ext_lower@)),
{
    match tool_preview {
        Some(p) => {
            match scale_jpeg_bytes(p.as_slice(), bound, quality) {
                Ok(out) => {
                    return Ok(out);
                },
                Err(_) => {},
            }
        },
        None => {},
    }
    extract_embedded_preview(raw_bytes, ext_lower, bound, quality)
}

/// Generates the full-size RAW preview: the external tool's best preview if
/// it renders, else the first usable embedded candidate, scaled into the
/// preview tier.
pub fn generate_raw_preview(raw_bytes: &[u8], tool_preview: Option<&Vec<u8>>, ext_lower: &str) -> (r:
    Result<Vec<u8>, DecodeError>)
    ensures
        match r {
            Ok(out) => spec_raw_ok(
                raw_bytes@,
                match tool_preview {
                    Some(p) => Some(p@),
                    None => None,
                },
                ext_lower@,
                PREVIEW_MAX_DIMENSION,
                out@,
            ),
            Err(e) => spec_raw_err(raw_bytes@, ext_lower@, e),
        },
        r matches Ok(out) ==> spec_jpeg_signature(out@),
        r is Ok <==> (spec_tool_preview_viable(
            match tool_preview {
                Some(p) => Some(p@),
                None => None,
            },
        ) || !spec_all_candidates_unusable(raw_bytes@, ext_lower@)),
{
    generate_raw_derivative(
        raw_bytes,
        tool_preview,
        ext_lower,
        PREVIEW_MAX_DIMENSION,
        PREVIEW_JPEG_QUALITY,
    )
}

/// Generates the RAW thumbnail through the same chain, scaled into the
/// thumbnail tier.
pub fn generate_raw_thumbnail(
    raw_bytes: &[u8],
    tool_preview: Option<&Vec<u8>>,
    ext_lower: &str,
) -> (r: Result<Vec<u8>, DecodeError>)
    ensures
        match r {
            Ok(out) => spec_raw_ok(
                raw_bytes@,
                match tool_preview {
                    Some(p) => Some(p@),
                    None => None,
                },
                ext_lower@,
                THUMBNAIL_MAX_DIMENSION,
                out@,
            ),
            Err(e) => spec_raw_err(raw_bytes@, ext_lower@, e),
        },
        r matches Ok(out) ==> spec_jpeg_signature(out@),
        r is Ok <==> (spec_tool_preview_viable(
            match tool_preview {
                Some(p) => Some(p@),
                None => None,
            },
        ) || !spec_all_candidates_unusable(raw_bytes@, ext_lower@)),
{
    generate_raw_derivative(
        raw_bytes,
        tool_preview,
        ext_lower,
        THUMBNAIL_MAX_DIMENSION,
        THUMBNAIL_JPEG_QUALITY,
    )
}

/// Picks the largest tool-produced preview from a listing of candidate
/// files, each a name with its size in bytes: the decision the RAW chain
/// makes over the external tool's output directory. Only names ending in a
/// JPEG suffix count; of those, a largest one wins.
pub fn select_largest_preview_file(entries: &Vec<(String, u64)>) -> (r: Option<usize>)
    ensures
        match r {
            Some(i) => 0 <= i < entries@.len() && spec_is_jpeg_name(entries@[i as int].0@)
                && forall|j: int|
                0 <= j < entries@.len() && spec_is_jpeg_name(#[trigger] entries@[j].0@)
                    ==> entries@[j].1 <= entries@[i as int].1,
            None => forall|j: int|
                0 <= j < entries@.len() ==> !spec_is_jpeg_name(#[trigger] entries@[j].0@),
        },
{
    let mut best: Option<usize> = None;
    let mut i: usize = 0;
    while i < entries.len()
        invariant
            i <= entries@.len(),
            match best {
                Some(b) => 0 <= b < i && spec_is_jpeg_name(entries@[b as int].0@) && forall|j: int|
                    0 <= j < i && spec_is_jpeg_name(#[trigger] entries@[j].0@) ==> entries@[j].1
                        <= entries@[b as int].1,
                None => forall|j: int| 0 <= j < i ==> !spec_is_jpeg_name(#[trigger] entries@[j].0@),
            },
        decreases entries@.len() - i,
    {
        if is_jpeg_name(entries[i].0.as_str()) {
            match best {
                Some(b) => {
                    if entries[i].1 > entries[b].1 {
                        best = Some(i);
                    }
                },
                None => {
                    best = Some(i);
                },
            }
        }
        i = i + 1;
    }
    best
}

/// A lower-case name ends in `.jpg` or `.jpeg`.
pub open spec fn spec_is_jpeg_name(name: Seq<char>) -> bool {
    ||| (name.len() >= 4 && name.subrange(name.len() - 4, name.len() as int) == seq![
        '.',
        'j',
        'p',
        'g',
    ])
    ||| (name.len() >= 5 && name.subrange(name.len() - 5, name.len() as int) == seq![
        '.',
        'j',
        'p',
        'e',
        'g',
    ])
}

/// Whether a lower-case file name carries a JPEG suffix.
pub fn is_jpeg_name(name: &str) -> (r: bool)
    ensures
        r == spec_is_jpeg_name(name@),
{
    let n = name.unicode_len();
    let jpg = n >= 4 && name.get_char(n - 4) == '.' && name.get_char(n - 3) == 'j' && name.get_char(
        n - 2,
    ) == 'p' && name.get_char(n - 1) == 'g';
    let jpeg = n >= 5 && name.get_char(n - 5) == '.' && name.get_char(n - 4) == 'j'
        && name.get_char(n - 3) == 'p' && name.get_char(n - 2) == 'e' && name.get_char(n - 1)
        == 'g';
    proof {
        if n >= 4 {
            let tail = name@.subrange(name@.len() - 4, name@.len() as int);
            assert(tail.len() == 4);
            assert(tail[0] == name@[name@.len() - 4] && tail[1] == name@[name@.len() - 3] && tail[2]
                == name@[name@.len() - 2] && tail[3] == name@[name@.len() - 1]);
            if name@[name@.len() - 4] == '.' && name@[name@.len() - 3] == 'j' && name@[name@.len()
                - 2] == 'p' && name@[name@.len() - 1] == 'g' {
                assert(tail =~= seq!['.', 'j', 'p', 'g']);
            } else {
                assert(tail != seq!['.', 'j', 'p', 'g']);
            }
        }
        if n >= 5 {
            let tail = name@.subrange(name@.len() - 5, name@.len() as int);
            assert(tail.len() == 5);
            assert(tail[0] == name@[name@.len() - 5] && tail[1] == name@[name@.len() - 4] && tail[2]
                == name@[name@.len() - 3] && tail[3] == name@[name@.len() - 2] && tail[4]
                == name@[name@.len() - 1]);
            if name@[name@.len() - 5] == '.' && name@[name@.len() - 4] == 'j' && name@[name@.len()
                - 3] == 'p' && name@[name@.len() - 2] == 'e' && name@[name@.len() - 1] == 'g' {
                assert(tail =~= seq!['.', 'j', 'p', 'e', 'g']);
            } else {
                assert(tail != seq!['.', 'j', 'p', 'e', 'g']);
            }
        }
    }
    jpg || jpeg
}

} // verus!
