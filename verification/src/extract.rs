//! Context and capture extraction: given a buffer and the spans of one match,
//! computes the clamped context window and resolves every participating
//! capture group into its exact byte slice.

use vstd::prelude::*;
use crate::pattern::MatchSpans;
use crate::pattern::RawMatch;
use crate::pattern::raw_match_wf;
use crate::records::SearchMatch;
use crate::records::fresh_uuid;
use crate::records::match_offsets_wf;

verus! {

/// Where the context window starts: `desired` bytes before the match start,
/// clamped to the start of the buffer.
pub open spec fn context_lo(match_start: nat, desired: nat) -> nat {
    if match_start > desired {
        (match_start - desired) as nat
    } else {
        0
    }
}

/// Where the context window ends: `desired` bytes past the match end, clamped
/// to the end of the buffer.
pub open spec fn context_hi(match_end: nat, desired: nat, len: nat) -> nat {
    if match_end + desired < len {
        (match_end + desired) as nat
    } else {
        len
    }
}

/// Computes the context window around a match: `desired` bytes each side,
/// clamped to the buffer's bounds, so the window always encloses the match
/// and never leaves the buffer.
pub fn context_bounds(match_start: usize, match_end: usize, len: usize, desired: usize) -> (r: (
    usize,
    usize,
))
    requires
        match_start <= match_end <= len,
    ensures
        r.0 == context_lo(match_start as nat, desired as nat),
        r.1 == context_hi(match_end as nat, desired as nat, len as nat),
        r.0 <= match_start,
        match_end <= r.1 <= len,
{
    let lo = if match_start > desired {
        match_start - desired
    } else {
        0
    };
    let hi = if len - match_end > desired {
        match_end + desired
    } else {
        len
    };
    (lo, hi)
}

/// Copies `buf[start..end]` into an owned buffer.
pub fn copy_range(buf: &Vec<u8>, start: usize, end: usize) -> (r: Vec<u8>)
    requires
        start <= end <= buf@.len(),
    ensures
        r@ == buf@.subrange(start as int, end as int),
{
    let mut out: Vec<u8> = Vec::new();
    let mut i: usize = start;
    while i < end
        invariant
            start <= i <= end <= buf@.len(),
            out@ == buf@.subrange(start as int, i as int),
        decreases end - i,
    {
        out.push(buf[i]);
        proof {
            assert(buf@.subrange(start as int, i + 1 as int) =~= buf@.subrange(
                start as int,
                i as int,
            ).push(buf@[i as int]));
        }
        i += 1;
    }
    out
}

/// Context clamping: the window starts `desired` bytes before the match and
/// ends `desired` bytes after it, clamped to the buffer.  It always encloses
/// the match and never leaves the buffer; for a match at offset zero it
/// starts exactly at zero, and for a match ending at the buffer's length it
/// ends exactly there.
pub proof fn lemma_context_window_clamped(
    match_start: nat,
    match_end: nat,
    desired: nat,
    len: nat,
)
    requires
        match_start <= match_end <= len,
    ensures
        context_lo(match_start, desired) <= match_start,
        match_end <= context_hi(match_end, desired, len) <= len,
        match_start == 0 ==> context_lo(match_start, desired) == 0,
        match_end == len ==> context_hi(match_end, desired, len) == len,
{
}

/// What a finished record says about one match with spans `m` found in `hay`:
/// every field but the (random) identifier is pinned exactly.
pub open spec fn record_matches(
    rec: SearchMatch,
    m: MatchSpans,
    hay: Seq<u8>,
    desired: nat,
    file: Seq<char>,
    tag: Seq<char>,
    source: Seq<char>,
) -> bool {
    &&& rec.file_name@ == file
    &&& rec.pattern_tag@ == tag
    &&& rec.pattern@ == source
    &&& rec.capture_start == m.start
    &&& rec.capture_end == m.end
    &&& rec.capture@ == hay.subrange(m.start as int, m.end as int)
    &&& rec.context_start == context_lo(m.start, desired)
    &&& rec.context_end == context_hi(m.end, desired, hay.len())
    &&& rec.context@ == hay.subrange(rec.context_start as int, rec.context_end as int)
    &&& rec.groups@.len() == m.groups.len()
    &&& forall|j: int|
        0 <= j < m.groups.len() ==> (#[trigger] rec.groups@[j])@ == hay.subrange(
            m.groups[j].0 as int,
            m.groups[j].1 as int,
        )
    &&& rec.uuid@.len() == 36
}

/// Every record built from a proper match span keeps the offset invariants of
/// the data model: the capture lies within the file, and the context window
/// encloses the capture without leaving the file.
pub proof fn lemma_record_offsets_wf(
    rec: SearchMatch,
    m: MatchSpans,
    hay: Seq<u8>,
    desired: nat,
    file: Seq<char>,
    tag: Seq<char>,
    source: Seq<char>,
)
    requires
        record_matches(rec, m, hay, desired, file, tag, source),
        m.start <= m.end <= hay.len(),
    ensures
        match_offsets_wf(rec, hay.len()),
{
    lemma_context_window_clamped(m.start, m.end, desired, hay.len());
}

/// Builds the full record for one match: the exact capture slice, the clamped
/// context window, every participating group's bytes in group-index order,
/// and a fresh identifier.
pub fn build_record(
    file_name: &String,
    tag: &String,
    source: &String,
    buf: &Vec<u8>,
    m: &RawMatch,
    desired_context: usize,
) -> (rec: SearchMatch)
    requires
        raw_match_wf(*m, buf@.len() as nat),
    ensures
        record_matches(rec, m@, buf@, desired_context as nat, file_name@, tag@, source@),
{
    let (context_start, context_end) = context_bounds(m.start, m.end, buf.len(), desired_context);
    let mut groups: Vec<Vec<u8>> = Vec::new();
    let mut j: usize = 0;
    while j < m.groups.len()
        invariant
            j <= m.groups@.len(),
            groups@.len() == j,
            raw_match_wf(*m, buf@.len() as nat),
            forall|k: int|
                0 <= k < j ==> (#[trigger] groups@[k])@ == buf@.subrange(
                    m.groups@[k].start as int,
                    m.groups@[k].end as int,
                ),
        decreases m.groups@.len() - j,
    {
        let g = m.groups[j];
        groups.push(copy_range(buf, g.start, g.end));
        j += 1;
    }
    let rec = SearchMatch {
        uuid: fresh_uuid(),
        file_name: file_name.clone(),
        pattern: source.clone(),
        pattern_tag: tag.clone(),
        groups,
        capture: copy_range(buf, m.start, m.end),
        capture_start: m.start,
        capture_end: m.end,
        context: copy_range(buf, context_start, context_end),
        context_start,
        context_end,
    };
    proof {
        assert(m@.groups.len() == m.groups@.len());
        assert forall|k: int| 0 <= k < m@.groups.len() implies (#[trigger] rec.groups@[k])@
            == buf@.subrange(m@.groups[k].0 as int, m@.groups[k].1 as int) by {
            assert(m@.groups[k] == m.groups@[k]@);
        }
    }
    rec
}

} // verus!
