//! The records a scan produces: one `SearchMatch` per pattern match and one
//! `SearchResult` per completed run.

use vstd::prelude::*;

verus! {

/// One match of one pattern against one file: the captured bytes with their
/// exact offsets, the clamped context window around them, and the bytes of
/// every participating capture group, in group-index order.
#[derive(Clone, Debug)]
pub struct SearchMatch {
    pub uuid: String,
    pub file_name: String,
    pub pattern: String,
    pub pattern_tag: String,
    pub groups: Vec<Vec<u8>>,
    pub capture: Vec<u8>,
    pub capture_start: usize,
    pub capture_end: usize,
    pub context: Vec<u8>,
    pub context_start: usize,
    pub context_end: usize,
}

/// The immutable outcome of one successful scan: timestamps bracketing the
/// run, the exact visit counters, and every accumulated match.
#[derive(Debug)]
pub struct SearchResult {
    pub uuid: String,
    pub scan_started_at: u64,
    pub scan_completed_at: u64,
    pub total_files_scanned: usize,
    pub total_directories_scanned: usize,
    pub matches: Vec<SearchMatch>,
}

/// The offsets a match record must keep to be meaningful against a file of
/// `file_len` bytes: the capture lies within the file and the context window
/// encloses the capture without leaving the file.
pub open spec fn match_offsets_wf(m: SearchMatch, file_len: nat) -> bool {
    &&& m.capture_start <= m.capture_end <= file_len
    &&& m.context_start <= m.capture_start
    &&& m.capture_end <= m.context_end <= file_len
}

/// Relies on `uuid::Uuid::new_v4` and its hyphenated `Display` form: a random
/// identifier rendered as exactly 36 characters.  Nothing is claimed of the
/// characters themselves: the value is random.
#[verifier::external_body]
pub(crate) fn fresh_uuid() -> (r: String)
    ensures
        r@.len() == 36,
{
    uuid::Uuid::new_v4().to_string()
}

} // verus!
