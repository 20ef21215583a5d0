//! The embedded-preview locator: finds plausible embedded JPEG byte ranges
//! inside a RAW container without a full RAW decoder.
//!
//! The generic strategy scans for start-of-image markers and, for each, for
//! the next end-of-image marker, keeping ranges above a minimum-size floor
//! and ordering them by descending size. Two vendor families get dedicated
//! strategies: a signature-gated scan that skips application segments, and a
//! full segment walker that parses every marker so that marker-like bytes
//! inside a segment payload or inside entropy-coded scan data are never
//! mistaken for the true end of the stream.

use vstd::multiset::Multiset;
use vstd::prelude::*;

verus! {

/// First byte of every JPEG marker.
pub const JPEG_MARKER_PREFIX: u8 = 0xff;

/// Second byte of the start-of-image marker.
pub const JPEG_SOI: u8 = 0xd8;

/// Second byte of the end-of-image marker.
pub const JPEG_EOI: u8 = 0xd9;

/// Minimum byte length of a candidate found by the generic scan, tuned to
/// exclude embedded micro-thumbnails.
pub const GENERIC_MIN_CANDIDATE_BYTES: usize = 30000;

/// A contiguous byte range believed to contain a complete JPEG stream.
#[derive(Clone, Copy, PartialEq, Eq, Structural, Debug)]
pub struct EmbeddedJpegCandidate {
    /// Offset of the start-of-image marker.
    pub start: usize,
    /// Offset one past the end-of-image marker.
    pub end: usize,
    /// Length of the range in bytes.
    pub byte_length: usize,
}

/// A candidate is well formed for a buffer when its range lies inside the
/// buffer, opens with a start-of-image marker and closes with an
/// end-of-image marker, and its recorded length matches the range.
pub open spec fn spec_candidate_wf(b: Seq<u8>, c: EmbeddedJpegCandidate) -> bool {
    &&& c.start + 2 <= c.end <= b.len()
    &&& b[c.start as int] == JPEG_MARKER_PREFIX
    &&& b[c.start + 1] == JPEG_SOI
    &&& b[c.end - 2] == JPEG_MARKER_PREFIX
    &&& b[c.end - 1] == JPEG_EOI
    &&& c.byte_length == c.end - c.start
}

/// A start-of-image marker sits at offset `i`.
pub open spec fn spec_is_soi_at(b: Seq<u8>, i: int) -> bool {
    0 <= i && i + 2 <= b.len() && b[i] == JPEG_MARKER_PREFIX && b[i + 1] == JPEG_SOI
}

/// The smallest offset at or after `from` holding an end-of-image marker.
pub open spec fn spec_find_eoi(b: Seq<u8>, from: int) -> Option<int>
    recommends
        from >= 0,
    decreases b.len() - from,
{
    if from < 0 || from + 2 > b.len() {
        None
    } else if b[from] == JPEG_MARKER_PREFIX && b[from + 1] == JPEG_EOI {
        Some(from)
    } else {
        spec_find_eoi(b, from + 1)
    }
}

/// The candidate the generic strategy yields for a start-of-image marker at
/// offset `i`: the range up to the first end-of-image marker after it,
/// provided the range clears the generic size floor.
pub open spec fn spec_generic_candidate_at(b: Seq<u8>, i: int) -> Option<EmbeddedJpegCandidate> {
    if spec_is_soi_at(b, i) {
        match spec_find_eoi(b, i + 2) {
            Some(j) => {
                if j + 2 - i > GENERIC_MIN_CANDIDATE_BYTES {
                    Some(
                        EmbeddedJpegCandidate {
                            start: i as usize,
                            end: (j + 2) as usize,
                            byte_length: (j + 2 - i) as usize,
                        },
                    )
                } else {
                    None
                }
            },
            None => None,
        }
    } else {
        None
    }
}

/// All generic candidates whose start-of-image marker lies below `upto`, in
/// ascending start order.
pub open spec fn spec_generic_candidates(b: Seq<u8>, upto: int) -> Seq<EmbeddedJpegCandidate>
    decreases upto,
{
    if upto <= 0 {
        Seq::empty()
    } else {
        spec_generic_candidates(b, upto - 1) + match spec_generic_candidate_at(b, upto - 1) {
            Some(c) => seq![c],
            None => Seq::empty(),
        }
    }
}

/// Every generic candidate is well formed and clears the generic floor.
pub proof fn lemma_generic_candidates_wf(b: Seq<u8>, upto: int, k: int)
    requires
        b.len() <= usize::MAX,
        0 <= k < spec_generic_candidates(b, upto).len(),
    ensures
        spec_candidate_wf(b, spec_generic_candidates(b, upto)[k]),
        spec_generic_candidates(b, upto)[k].byte_length > GENERIC_MIN_CANDIDATE_BYTES,
    decreases upto,
{
    if upto > 0 {
        let prefix = spec_generic_candidates(b, upto - 1);
        if k < prefix.len() {
            lemma_generic_candidates_wf(b, upto - 1, k);
            assert(spec_generic_candidates(b, upto)[k] == prefix[k]);
        } else {
            let c = spec_generic_candidates(b, upto)[k];
            assert(spec_generic_candidate_at(b, upto - 1) == Some(c));
            let j = spec_find_eoi(b, upto + 1).unwrap();
            lemma_find_eoi_props(b, upto + 1);
            assert(c.start == upto - 1 && c.end == j + 2 && c.byte_length == j + 2 - (upto - 1));
        }
    }
}

/// What a found end-of-image offset satisfies.
pub proof fn lemma_find_eoi_props(b: Seq<u8>, from: int)
    requires
        from >= 0,
    ensures
        match spec_find_eoi(b, from) {
            Some(j) => from <= j && j + 2 <= b.len() && b[j] == JPEG_MARKER_PREFIX && b[j + 1]
                == JPEG_EOI,
            None => true,
        },
    decreases b.len() - from,
{
    if from + 2 <= b.len() && !(b[from] == JPEG_MARKER_PREFIX && b[from + 1] == JPEG_EOI) {
        lemma_find_eoi_props(b, from + 1);
    }
}

/// Finds the first end-of-image marker at or after `from`.
fn find_eoi(data: &[u8], from: usize) -> (r: Option<usize>)
    ensures
        match r {
            Some(j) => spec_find_eoi(data@, from as int) == Some(j as int),
            None => spec_find_eoi(data@, from as int) is None,
        },
{
    let n = data.len();
    let mut pos = from;
    loop
        invariant
            from <= pos,
            n == data@.len(),
            spec_find_eoi(data@, from as int) == spec_find_eoi(data@, pos as int),
        decreases n - pos,
    {
        if pos >= n || n - pos < 2 {
            return None;
        }
        if data[pos] == JPEG_MARKER_PREFIX && data[pos + 1] == JPEG_EOI {
            return Some(pos);
        }
        pos = pos + 1;
    }
}

/// Scans the whole buffer with the generic strategy: every start-of-image
/// marker opens a candidate that runs to the first end-of-image marker after
/// it, kept only above the generic size floor. Candidates come back in
/// ascending start order; `generic_candidates_by_size` orders them for use.
pub fn scan_generic_candidates(data: &[u8]) -> (r: Vec<EmbeddedJpegCandidate>)
    ensures
        r@ == spec_generic_candidates(data@, data@.len() as int),
{
    let n = data.len();
    let mut out: Vec<EmbeddedJpegCandidate> = Vec::new();
    let mut i: usize = 0;
    while i < n
        invariant
            i <= n,
            n == data@.len(),
            out@ == spec_generic_candidates(data@, i as int),
        decreases n - i,
    {
        if n - i >= 2 && data[i] == JPEG_MARKER_PREFIX && data[i + 1] == JPEG_SOI {
            match find_eoi(data, i + 2) {
                Some(j) => {
                    proof {
                        lemma_find_eoi_props(data@, i + 2);
                    }
                    let end = j + 2;
                    let len = end - i;
                    if len > GENERIC_MIN_CANDIDATE_BYTES {
                        out.push(
                            EmbeddedJpegCandidate { start: i, end, byte_length: len },
                        );
                    }
                },
                None => {},
            }
        }
        proof {
            assert(out@ =~= spec_generic_candidates(data@, i + 1));
        }
        i = i + 1;
    }
    out
}

/// The candidates of `s` ordered by descending byte length.
pub open spec fn spec_sorted_by_size_desc(s: Seq<EmbeddedJpegCandidate>) -> bool {
    forall|i: int, j: int|
        0 <= i < j < s.len() ==> s[i].byte_length >= s[j].byte_length
}

/// Reorders candidates by descending byte length; the collection itself is
/// unchanged.
pub fn sort_candidates_by_size_desc(cands: Vec<EmbeddedJpegCandidate>) -> (r: Vec<
    EmbeddedJpegCandidate,
>)
    ensures
        spec_sorted_by_size_desc(r@),
        r@.to_multiset() == cands@.to_multiset(),
        r@.len() == cands@.len(),
{
    broadcast use vstd::seq_lib::group_to_multiset_ensures;

    let mut out: Vec<EmbeddedJpegCandidate> = Vec::new();
    let mut rest = cands;
    let ghost all = rest@.to_multiset();
    while rest.len() > 0
        invariant
            spec_sorted_by_size_desc(out@),
            out@.to_multiset().add(rest@.to_multiset()) == all,
            out@.to_multiset().len() == out@.len(),
            rest@.to_multiset().len() == rest@.len(),
            forall|i: int, j: int|
                0 <= i < out@.len() && 0 <= j < rest@.len() ==> out@[i].byte_length
                    >= rest@[j].byte_length,
        decreases rest@.len(),
    {
        let mut best: usize = 0;
        let mut k: usize = 1;
        while k < rest.len()
            invariant
                best < k <= rest@.len(),
                rest@.len() > 0,
                forall|j: int| 0 <= j < k ==> rest@[best as int].byte_length >= rest@[j].byte_length,
            decreases rest@.len() - k,
        {
            if rest[k].byte_length > rest[best].byte_length {
                best = k;
            }
            k = k + 1;
        }
        let ghost old_rest = rest@;
        let ghost old_out = out@;
        let picked = rest.remove(best);
        out.push(picked);
        proof {
            assert(picked == old_rest[best as int]);
            assert(old_rest.contains(picked));
            vstd::seq_lib::to_multiset_contains(old_rest, picked);
            vstd::seq_lib::to_multiset_remove(old_rest, best as int);
            vstd::seq_lib::to_multiset_build(old_out, picked);
            vstd::seq_lib::to_multiset_len(old_rest);
            vstd::seq_lib::to_multiset_len(rest@);
            vstd::seq_lib::to_multiset_len(out@);
            assert(rest@ == old_rest.remove(best as int));
            assert(out@ == old_out.push(picked));
            assert(out@.to_multiset().add(rest@.to_multiset()) =~= all);
            assert forall|j: int| 0 <= j < rest@.len() implies picked.byte_length
                >= rest@[j].byte_length && (exists|j0: int|
                0 <= j0 < old_rest.len() && rest@[j] == old_rest[j0]) by {
                if j < best {
                    assert(rest@[j] == old_rest[j]);
                } else {
                    assert(rest@[j] == old_rest[j + 1]);
                }
            }
            assert forall|i: int, j: int|
                0 <= i < out@.len() && 0 <= j < rest@.len() implies out@[i].byte_length
                >= rest@[j].byte_length by {
                let j0 = choose|j0: int| 0 <= j0 < old_rest.len() && rest@[j] == old_rest[j0];
                if i < old_out.len() {
                    assert(out@[i] == old_out[i]);
                    assert(old_out[i].byte_length >= old_rest[j0].byte_length);
                } else {
                    assert(out@[i] == picked);
                }
            }
            assert forall|i: int, j: int| 0 <= i < j < out@.len() implies out@[i].byte_length
                >= out@[j].byte_length by {
                if j < old_out.len() {
                    assert(out@[i] == old_out[i] && out@[j] == old_out[j]);
                } else {
                    assert(out@[j] == picked);
                    if i < old_out.len() {
                        assert(out@[i] == old_out[i]);
                        assert(old_out[i].byte_length >= old_rest[best as int].byte_length);
                    }
                }
            }
        }
    }
    proof {
        vstd::seq_lib::to_multiset_len(rest@);
        vstd::multiset::lemma_multiset_empty_len(rest@.to_multiset());
        assert(out@.to_multiset() =~= all);
        vstd::seq_lib::to_multiset_len(out@);
        vstd::seq_lib::to_multiset_len(cands@);
    }
    out
}

/// Runs the generic strategy and orders its candidates by descending size.
pub fn generic_candidates_by_size(data: &[u8]) -> (r: Vec<EmbeddedJpegCandidate>)
    ensures
        spec_sorted_by_size_desc(r@),
        r@.to_multiset() == spec_generic_candidates(data@, data@.len() as int).to_multiset(),
        forall|k: int|
            0 <= k < r@.len() ==> spec_candidate_wf(data@, r@[k]) && r@[k].byte_length
                > GENERIC_MIN_CANDIDATE_BYTES,
{
    let n = data.len();
    let found = scan_generic_candidates(data);
    let r = sort_candidates_by_size_desc(found);
    proof {
        assert(data@.len() == n as int);
        let all = spec_generic_candidates(data@, data@.len() as int);
        r@.to_multiset_ensures();
        all.to_multiset_ensures();
        assert forall|k: int| 0 <= k < r@.len() implies spec_candidate_wf(data@, r@[k])
            && r@[k].byte_length > GENERIC_MIN_CANDIDATE_BYTES by {
            assert(r@.to_multiset().contains(r@[k]));
            assert(all.to_multiset().contains(r@[k]));
            let idx = all.index_of(r@[k]);
            lemma_generic_candidates_wf(data@, data@.len() as int, idx);
        }
    }
    r
}

} // verus!

// === Vendor-specific strategies =============================================

verus! {

/// Minimum byte length of a candidate found by the full segment walker;
/// this vendor family's embedded previews run smaller than the generic
/// floor.
pub const NEF_MIN_CANDIDATE_BYTES: usize = 10000;

/// Minimum byte length of a candidate found by the signature-gated scan.
pub const RAF_MIN_CANDIDATE_BYTES: usize = 10000;

/// Offset at which the signature-gated scan starts: the vendor's fixed file
/// header is never scanned for markers.
pub const RAF_HEADER_SCAN_OFFSET: usize = 84;

/// Where a complete JPEG stream whose next marker starts at `pos` ends:
/// every marker is parsed, a segment's declared payload is skipped without
/// inspection, and a start-of-scan marker switches to entropy-coded data.
/// `None` means the stream is corrupt or runs off the buffer.
pub open spec fn spec_segment_walk(b: Seq<u8>, pos: int) -> Option<int>
    decreases b.len() - pos, 0int,
{
    if pos < 0 || pos + 2 > b.len() {
        None
    } else if b[pos] != JPEG_MARKER_PREFIX {
        None
    } else {
        let m = b[pos + 1];
        if m == JPEG_EOI {
            Some(pos + 2)
        } else if m == JPEG_SOI || m == 0x01 || (0xd0 <= m && m <= 0xd7) {
            spec_segment_walk(b, pos + 2)
        } else if m == JPEG_MARKER_PREFIX {
            spec_segment_walk(b, pos + 1)
        } else if m == 0xda {
            if pos + 4 > b.len() {
                None
            } else {
                let l = b[pos + 2] as int * 256 + b[pos + 3] as int;
                if l < 2 || pos + 2 + l > b.len() {
                    None
                } else {
                    spec_entropy_walk(b, pos + 2 + l)
                }
            }
        } else {
            if pos + 4 > b.len() {
                None
            } else {
                let l = b[pos + 2] as int * 256 + b[pos + 3] as int;
                if l < 2 || pos + 2 + l > b.len() {
                    None
                } else {
                    spec_segment_walk(b, pos + 2 + l)
                }
            }
        }
    }
}

/// Where the stream ends when `pos` sits inside entropy-coded scan data:
/// stuffed `0x00` bytes and restart markers stay inside the scan, fill
/// bytes are skipped, an end-of-image marker ends the stream, and any other
/// marker leaves entropy-coded data for the segment walker.
pub open spec fn spec_entropy_walk(b: Seq<u8>, pos: int) -> Option<int>
    decreases b.len() - pos, 1int,
{
    if pos < 0 || pos >= b.len() {
        None
    } else if b[pos] != JPEG_MARKER_PREFIX {
        spec_entropy_walk(b, pos + 1)
    } else if pos + 2 > b.len() {
        None
    } else {
        let m = b[pos + 1];
        if m == JPEG_EOI {
            Some(pos + 2)
        } else if m == 0x00 || (0xd0 <= m && m <= 0xd7) {
            spec_entropy_walk(b, pos + 2)
        } else if m == JPEG_MARKER_PREFIX {
            spec_entropy_walk(b, pos + 1)
        } else {
            spec_segment_walk(b, pos)
        }
    }
}

/// A stream end found by the walker lies in range and closes with an
/// end-of-image marker.
pub proof fn lemma_segment_walk_props(b: Seq<u8>, pos: int)
    ensures
        match spec_segment_walk(b, pos) {
            Some(e) => pos + 2 <= e <= b.len() && b[e - 2] == JPEG_MARKER_PREFIX && b[e - 1]
                == JPEG_EOI,
            None => true,
        },
    decreases b.len() - pos, 0int,
{
    if pos >= 0 && pos + 2 <= b.len() && b[pos] == JPEG_MARKER_PREFIX {
        let m = b[pos + 1];
        if m == JPEG_EOI {
        } else if m == JPEG_SOI || m == 0x01 || (0xd0 <= m && m <= 0xd7) {
            lemma_segment_walk_props(b, pos + 2);
        } else if m == JPEG_MARKER_PREFIX {
            lemma_segment_walk_props(b, pos + 1);
        } else if m == 0xda {
            if pos + 4 <= b.len() {
                let l = b[pos + 2] as int * 256 + b[pos + 3] as int;
                if l >= 2 && pos + 2 + l <= b.len() {
                    lemma_entropy_walk_props(b, pos + 2 + l);
                }
            }
        } else {
            if pos + 4 <= b.len() {
                let l = b[pos + 2] as int * 256 + b[pos + 3] as int;
                if l >= 2 && pos + 2 + l <= b.len() {
                    lemma_segment_walk_props(b, pos + 2 + l);
                }
            }
        }
    }
}

/// As `lemma_segment_walk_props`, for entropy-coded data.
pub proof fn lemma_entropy_walk_props(b: Seq<u8>, pos: int)
    ensures
        match spec_entropy_walk(b, pos) {
            Some(e) => pos + 2 <= e <= b.len() && b[e - 2] == JPEG_MARKER_PREFIX && b[e - 1]
                == JPEG_EOI,
            None => true,
        },
    decreases b.len() - pos, 1int,
{
    if 0 <= pos < b.len() {
        if b[pos] != JPEG_MARKER_PREFIX {
            lemma_entropy_walk_props(b, pos + 1);
        } else if pos + 2 <= b.len() {
            let m = b[pos + 1];
            if m == JPEG_EOI {
            } else if m == 0x00 || (0xd0 <= m && m <= 0xd7) {
                lemma_entropy_walk_props(b, pos + 2);
            } else if m == JPEG_MARKER_PREFIX {
                lemma_entropy_walk_props(b, pos + 1);
            } else {
                lemma_segment_walk_props(b, pos);
            }
        }
    }
}

/// Walks a complete JPEG stream starting at `start`, returning the offset
/// one past its end-of-image marker, or `None` for a stream that is corrupt
/// or runs off the buffer.
pub fn segment_walk_stream_end(data: &[u8], start: usize) -> (r: Option<usize>)
    ensures
        match r {
            Some(e) => spec_segment_walk(data@, start as int) == Some(e as int),
            None => spec_segment_walk(data@, start as int) is None,
        },
{
    let n = data.len();
    if n < 2 || start > n - 2 {
        return None;
    }
    let mut pos = start;
    let mut in_entropy = false;
    loop
        invariant
            n == data@.len(),
            pos <= n,
            (if in_entropy {
                spec_entropy_walk(data@, pos as int)
            } else {
                spec_segment_walk(data@, pos as int)
            }) == spec_segment_walk(data@, start as int),
        decreases n - pos, (if in_entropy { 1int } else { 0int }),
    {
        if !in_entropy {
            if n - pos < 2 {
                return None;
            }
            if data[pos] != JPEG_MARKER_PREFIX {
                return None;
            }
            let m = data[pos + 1];
            if m == JPEG_EOI {
                return Some(pos + 2);
            } else if m == JPEG_SOI || m == 0x01 || (0xd0 <= m && m <= 0xd7) {
                pos = pos + 2;
            } else if m == JPEG_MARKER_PREFIX {
                pos = pos + 1;
            } else {
                if n - pos < 4 {
                    return None;
                }
                let l = (data[pos + 2] as usize) * 256 + (data[pos + 3] as usize);
                if l < 2 {
                    return None;
                }
                if n - pos < 2 + l {
                    return None;
                }
                if m == 0xda {
                    in_entropy = true;
                }
                pos = pos + 2 + l;
            }
        } else {
            if pos >= n {
                return None;
            }
            if data[pos] != JPEG_MARKER_PREFIX {
                pos = pos + 1;
            } else if n - pos < 2 {
                return None;
            } else {
                let m = data[pos + 1];
                if m == JPEG_EOI {
                    return Some(pos + 2);
                } else if m == 0x00 || (0xd0 <= m && m <= 0xd7) {
                    pos = pos + 2;
                } else if m == JPEG_MARKER_PREFIX {
                    pos = pos + 1;
                } else {
                    in_entropy = false;
                }
            }
        }
    }
}

/// The candidate the segment walker yields for a start-of-image marker at
/// offset `i`: the precisely delimited stream, provided it clears the
/// walker's size floor.
pub open spec fn spec_walker_candidate_at(b: Seq<u8>, i: int) -> Option<EmbeddedJpegCandidate> {
    if spec_is_soi_at(b, i) {
        match spec_segment_walk(b, i) {
            Some(e) => {
                if e - i > NEF_MIN_CANDIDATE_BYTES {
                    Some(
                        EmbeddedJpegCandidate {
                            start: i as usize,
                            end: e as usize,
                            byte_length: (e - i) as usize,
                        },
                    )
                } else {
                    None
                }
            },
            None => None,
        }
    } else {
        None
    }
}

/// All walker candidates whose start-of-image marker lies below `upto`, in
/// scan order: structurally complete streams, earliest first.
pub open spec fn spec_walker_candidates(b: Seq<u8>, upto: int) -> Seq<EmbeddedJpegCandidate>
    decreases upto,
{
    if upto <= 0 {
        Seq::empty()
    } else {
        spec_walker_candidates(b, upto - 1) + match spec_walker_candidate_at(b, upto - 1) {
            Some(c) => seq![c],
            None => Seq::empty(),
        }
    }
}

/// Every walker candidate is well formed and clears the walker's floor.
pub proof fn lemma_walker_candidates_wf(b: Seq<u8>, upto: int, k: int)
    requires
        b.len() <= usize::MAX,
        0 <= k < spec_walker_candidates(b, upto).len(),
    ensures
        spec_candidate_wf(b, spec_walker_candidates(b, upto)[k]),
        spec_walker_candidates(b, upto)[k].byte_length > NEF_MIN_CANDIDATE_BYTES,
    decreases upto,
{
    if upto > 0 {
        let prefix = spec_walker_candidates(b, upto - 1);
        if k < prefix.len() {
            lemma_walker_candidates_wf(b, upto - 1, k);
            assert(spec_walker_candidates(b, upto)[k] == prefix[k]);
        } else {
            let c = spec_walker_candidates(b, upto)[k];
            assert(spec_walker_candidate_at(b, upto - 1) == Some(c));
            lemma_segment_walk_props(b, upto - 1);
        }
    }
}

/// Scans the whole buffer with the full segment walker: every start-of-image
/// marker opens a walk, and precisely delimited streams above the walker's
/// floor become candidates, in scan order.
pub fn scan_walker_candidates(data: &[u8]) -> (r: Vec<EmbeddedJpegCandidate>)
    ensures
        r@ == spec_walker_candidates(data@, data@.len() as int),
        forall|k: int|
            0 <= k < r@.len() ==> spec_candidate_wf(data@, r@[k]) && r@[k].byte_length
                > NEF_MIN_CANDIDATE_BYTES,
{
    let n = data.len();
    let mut out: Vec<EmbeddedJpegCandidate> = Vec::new();
    let mut i: usize = 0;
    while i < n
        invariant
            i <= n,
            n == data@.len(),
            out@ == spec_walker_candidates(data@, i as int),
        decreases n - i,
    {
        if n - i >= 2 && data[i] == JPEG_MARKER_PREFIX && data[i + 1] == JPEG_SOI {
            match segment_walk_stream_end(data, i) {
                Some(e) => {
                    proof {
                        lemma_segment_walk_props(data@, i as int);
                    }
                    let len = e - i;
                    if len > NEF_MIN_CANDIDATE_BYTES {
                        out.push(EmbeddedJpegCandidate { start: i, end: e, byte_length: len });
                    }
                },
                None => {},
            }
        }
        proof {
            assert(out@ =~= spec_walker_candidates(data@, i + 1));
        }
        i = i + 1;
    }
    proof {
        assert forall|k: int| 0 <= k < out@.len() implies spec_candidate_wf(data@, out@[k])
            && out@[k].byte_length > NEF_MIN_CANDIDATE_BYTES by {
            lemma_walker_candidates_wf(data@, n as int, k);
        }
    }
    out
}

} // verus!

// === Signature-gated strategy and dispatch ==================================

verus! {

/// The fixed file-header magic of the signature-gated vendor family, as
/// bytes: the ASCII string `FUJIFILMCCD-RAW`.
pub open spec fn spec_raf_magic() -> Seq<u8> {
    seq![0x46u8, 0x55u8, 0x4au8, 0x49u8, 0x46u8, 0x49u8, 0x4cu8, 0x4du8, 0x43u8, 0x43u8, 0x44u8,
        0x2du8, 0x52u8, 0x41u8, 0x57u8]
}

/// Whether the buffer opens with the vendor's file-header magic.
pub open spec fn spec_raf_has_magic(b: Seq<u8>) -> bool {
    b.len() >= 15 && b.subrange(0, 15) == spec_raf_magic()
}

/// Checks the vendor's file-header magic.
pub fn raf_has_magic(data: &[u8]) -> (r: bool)
    ensures
        r == spec_raf_has_magic(data@),
{
    let magic: [u8; 15] = [
        0x46, 0x55, 0x4a, 0x49, 0x46, 0x49, 0x4c, 0x4d, 0x43, 0x43, 0x44, 0x2d, 0x52, 0x41, 0x57,
    ];
    if data.len() < 15 {
        return false;
    }
    let mut i: usize = 0;
    while i < 15
        invariant
            i <= 15,
            data@.len() >= 15,
            magic@ == spec_raf_magic(),
            forall|j: int| 0 <= j < i ==> data@[j] == spec_raf_magic()[j],
        decreases 15 - i,
    {
        if data[i] != magic[i] {
            proof {
                assert(data@.subrange(0, 15)[i as int] != spec_raf_magic()[i as int]);
            }
            return false;
        }
        i = i + 1;
    }
    proof {
        assert(data@.subrange(0, 15) =~= spec_raf_magic());
    }
    true
}

/// Where a stream opened at some start-of-image marker ends under the
/// signature-gated scan: application segments are skipped by their declared
/// length, anything else is scanned byte by byte for the end-of-image
/// marker.
pub open spec fn spec_raf_find_end(b: Seq<u8>, pos: int) -> Option<int>
    decreases b.len() - pos,
{
    if pos < 0 || pos + 2 > b.len() {
        None
    } else if b[pos] == JPEG_MARKER_PREFIX && 0xe0 <= b[pos + 1] && b[pos + 1] <= 0xef {
        if pos + 4 > b.len() {
            None
        } else {
            let l = b[pos + 2] as int * 256 + b[pos + 3] as int;
            if l < 2 || pos + 2 + l > b.len() {
                None
            } else {
                spec_raf_find_end(b, pos + 2 + l)
            }
        }
    } else if b[pos] == JPEG_MARKER_PREFIX && b[pos + 1] == JPEG_EOI {
        Some(pos + 2)
    } else {
        spec_raf_find_end(b, pos + 1)
    }
}

/// An end found by the signature-gated scan lies in range and closes with
/// an end-of-image marker.
pub proof fn lemma_raf_find_end_props(b: Seq<u8>, pos: int)
    ensures
        match spec_raf_find_end(b, pos) {
            Some(e) => pos + 2 <= e <= b.len() && b[e - 2] == JPEG_MARKER_PREFIX && b[e - 1]
                == JPEG_EOI,
            None => true,
        },
    decreases b.len() - pos,
{
    if pos >= 0 && pos + 2 <= b.len() {
        if b[pos] == JPEG_MARKER_PREFIX && 0xe0 <= b[pos + 1] && b[pos + 1] <= 0xef {
            if pos + 4 <= b.len() {
                let l = b[pos + 2] as int * 256 + b[pos + 3] as int;
                if l >= 2 && pos + 2 + l <= b.len() {
                    lemma_raf_find_end_props(b, pos + 2 + l);
                }
            }
        } else if b[pos] == JPEG_MARKER_PREFIX && b[pos + 1] == JPEG_EOI {
        } else {
            lemma_raf_find_end_props(b, pos + 1);
        }
    }
}

/// Finds the stream end under the signature-gated scan.
fn raf_find_end(data: &[u8], from: usize) -> (r: Option<usize>)
    ensures
        match r {
            Some(e) => spec_raf_find_end(data@, from as int) == Some(e as int),
            None => spec_raf_find_end(data@, from as int) is None,
        },
{
    let n = data.len();
    if n < 2 || from > n - 2 {
        return None;
    }
    let mut pos = from;
    loop
        invariant
            n == data@.len(),
            pos <= n,
            spec_raf_find_end(data@, from as int) == spec_raf_find_end(data@, pos as int),
        decreases n - pos,
    {
        if n - pos < 2 {
            return None;
        }
        if data[pos] == JPEG_MARKER_PREFIX && 0xe0 <= data[pos + 1] && data[pos + 1] <= 0xef {
            if n - pos < 4 {
                return None;
            }
            let l = (data[pos + 2] as usize) * 256 + (data[pos + 3] as usize);
            if l < 2 || n - pos < 2 + l {
                return None;
            }
            pos = pos + 2 + l;
        } else if data[pos] == JPEG_MARKER_PREFIX && data[pos + 1] == JPEG_EOI {
            return Some(pos + 2);
        } else {
            pos = pos + 1;
        }
    }
}

/// The candidate the signature-gated scan yields for a start-of-image
/// marker at offset `i`, past the vendor header, above the gated floor.
pub open spec fn spec_raf_candidate_at(b: Seq<u8>, i: int) -> Option<EmbeddedJpegCandidate> {
    if i >= RAF_HEADER_SCAN_OFFSET && spec_is_soi_at(b, i) {
        match spec_raf_find_end(b, i + 2) {
            Some(e) => {
                if e - i > RAF_MIN_CANDIDATE_BYTES {
                    Some(
                        EmbeddedJpegCandidate {
                            start: i as usize,
                            end: e as usize,
                            byte_length: (e - i) as usize,
                        },
                    )
                } else {
                    None
                }
            },
            None => None,
        }
    } else {
        None
    }
}

/// All signature-gated candidates whose start-of-image marker lies below
/// `upto`, in scan order, provided the buffer carries the vendor magic.
pub open spec fn spec_raf_candidates(b: Seq<u8>, upto: int) -> Seq<EmbeddedJpegCandidate>
    decreases upto,
{
    if !spec_raf_has_magic(b) || upto <= 0 {
        Seq::empty()
    } else {
        spec_raf_candidates(b, upto - 1) + match spec_raf_candidate_at(b, upto - 1) {
            Some(c) => seq![c],
            None => Seq::empty(),
        }
    }
}

/// Every signature-gated candidate is well formed and clears the gated
/// floor.
pub proof fn lemma_raf_candidates_wf(b: Seq<u8>, upto: int, k: int)
    requires
        b.len() <= usize::MAX,
        0 <= k < spec_raf_candidates(b, upto).len(),
    ensures
        spec_candidate_wf(b, spec_raf_candidates(b, upto)[k]),
        spec_raf_candidates(b, upto)[k].byte_length > RAF_MIN_CANDIDATE_BYTES,
    decreases upto,
{
    if spec_raf_has_magic(b) && upto > 0 {
        let prefix = spec_raf_candidates(b, upto - 1);
        if k < prefix.len() {
            lemma_raf_candidates_wf(b, upto - 1, k);
            assert(spec_raf_candidates(b, upto)[k] == prefix[k]);
        } else {
            let c = spec_raf_candidates(b, upto)[k];
            assert(spec_raf_candidate_at(b, upto - 1) == Some(c));
            lemma_raf_find_end_props(b, upto + 1);
        }
    }
}

/// Scans a signature-gated buffer: only past the vendor header, and only
/// when the file-header magic verifies; candidates come in scan order.
pub fn scan_raf_candidates(data: &[u8]) -> (r: Vec<EmbeddedJpegCandidate>)
    ensures
        r@ == spec_raf_candidates(data@, data@.len() as int),
        forall|k: int|
            0 <= k < r@.len() ==> spec_candidate_wf(data@, r@[k]) && r@[k].byte_length
                > RAF_MIN_CANDIDATE_BYTES,
{
    let n = data.len();
    let mut out: Vec<EmbeddedJpegCandidate> = Vec::new();
    if !raf_has_magic(data) {
        proof {
            assert(out@ =~= spec_raf_candidates(data@, data@.len() as int));
        }
        return out;
    }
    let mut i: usize = RAF_HEADER_SCAN_OFFSET;
    proof {
        lemma_raf_candidates_below_offset(data@, RAF_HEADER_SCAN_OFFSET as int);
    }
    while i < n
        invariant
            i <= n || i == RAF_HEADER_SCAN_OFFSET,
            i >= RAF_HEADER_SCAN_OFFSET,
            n == data@.len(),
            spec_raf_has_magic(data@),
            out@ == spec_raf_candidates(data@, i as int),
        decreases n - i,
    {
        if n - i >= 2 && data[i] == JPEG_MARKER_PREFIX && data[i + 1] == JPEG_SOI {
            match raf_find_end(data, i + 2) {
                Some(e) => {
                    proof {
                        lemma_raf_find_end_props(data@, i + 2);
                    }
                    let len = e - i;
                    if len > RAF_MIN_CANDIDATE_BYTES {
                        out.push(EmbeddedJpegCandidate { start: i, end: e, byte_length: len });
                    }
                },
                None => {},
            }
        }
        proof {
            assert(out@ =~= spec_raf_candidates(data@, i + 1));
        }
        i = i + 1;
    }
    proof {
        if n < RAF_HEADER_SCAN_OFFSET {
            lemma_raf_candidates_below_offset(data@, n as int);
            assert(out@ =~= spec_raf_candidates(data@, n as int));
        }
        assert forall|k: int| 0 <= k < out@.len() implies spec_candidate_wf(data@, out@[k])
            && out@[k].byte_length > RAF_MIN_CANDIDATE_BYTES by {
            lemma_raf_candidates_wf(data@, n as int, k);
        }
    }
    out
}

/// No signature-gated candidate starts inside the vendor header.
proof fn lemma_raf_candidates_below_offset(b: Seq<u8>, upto: int)
    requires
        upto <= RAF_HEADER_SCAN_OFFSET,
    ensures
        spec_raf_candidates(b, upto) == Seq::<EmbeddedJpegCandidate>::empty(),
    decreases upto,
{
    if spec_raf_has_magic(b) && upto > 0 {
        lemma_raf_candidates_below_offset(b, upto - 1);
        assert(spec_raf_candidate_at(b, upto - 1) is None);
        assert(spec_raf_candidates(b, upto) =~= Seq::<EmbeddedJpegCandidate>::empty());
    }
}

} // verus!

// === Dispatch ===============================================================

verus! {

/// The collection of candidates the locator yields for a buffer and a
/// lower-case extension, regardless of the order they are tried in.
pub open spec fn spec_located_multiset(b: Seq<u8>, ext: Seq<char>) -> Multiset<
    EmbeddedJpegCandidate,
> {
    let walker = spec_walker_candidates(b, b.len() as int);
    let gated = spec_raf_candidates(b, b.len() as int);
    let generic = spec_generic_candidates(b, b.len() as int);
    if ext == "nef"@ && walker.len() > 0 {
        walker.to_multiset()
    } else if ext == "raf"@ && gated.len() > 0 {
        gated.to_multiset()
    } else {
        generic.to_multiset()
    }
}

/// Locates embedded-preview candidates in a RAW buffer. The lower-case
/// extension selects a vendor strategy — the full segment walker for `nef`,
/// the signature-gated scan for `raf` — and the generic scan covers every
/// other extension. A vendor strategy that yields nothing falls back to the
/// generic scan on the same bytes. Vendor candidates come in scan order
/// (structurally complete streams first found, first tried); generic
/// candidates come ordered by descending size.
pub fn locate_embedded_candidates(data: &[u8], ext_lower: &str) -> (r: Vec<EmbeddedJpegCandidate>)
    ensures
        forall|k: int| 0 <= k < r@.len() ==> spec_candidate_wf(data@, r@[k]),
        r@.to_multiset() == spec_located_multiset(data@, ext_lower@),
        ({
            let walker = spec_walker_candidates(data@, data@.len() as int);
            let gated = spec_raf_candidates(data@, data@.len() as int);
            let generic = spec_generic_candidates(data@, data@.len() as int);
            if ext_lower@ == "nef"@ && walker.len() > 0 {
                r@ == walker
            } else if ext_lower@ == "raf"@ && gated.len() > 0 {
                r@ == gated
            } else {
                r@.to_multiset() == generic.to_multiset() && spec_sorted_by_size_desc(r@)
            }
        }),
{
    proof {
        reveal_strlit("nef");
        reveal_strlit("raf");
        assert("nef"@[0] != "raf"@[0]);
    }
    if crate::strutil::str_eq(ext_lower, "nef") {
        let found = scan_walker_candidates(data);
        if found.len() > 0 {
            return found;
        }
    } else if crate::strutil::str_eq(ext_lower, "raf") {
        let found = scan_raf_candidates(data);
        if found.len() > 0 {
            return found;
        }
    }
    generic_candidates_by_size(data)
}

} // verus!
