//! Result aggregation: the single accumulation point of one run.  Match
//! records are appended, the visit counters are exact, and of all reported
//! errors only the first is retained.  At finalize time a latched error
//! supersedes every accumulated match: the caller receives either a complete
//! result or one error, never both.

use vstd::prelude::*;
use crate::errors::ScanError;
use crate::records::SearchMatch;
use crate::records::SearchResult;
use crate::records::fresh_uuid;

verus! {

/// The accumulating state of one run.  The fields are private: matches can
/// only be appended, counters only incremented, and the first latched error
/// can never be replaced.
pub struct Aggregator {
    files_scanned: usize,
    directories_scanned: usize,
    matches: Vec<SearchMatch>,
    error: Option<ScanError>,
}

impl Aggregator {
    pub closed spec fn spec_files_scanned(&self) -> usize {
        self.files_scanned
    }

    pub closed spec fn spec_directories_scanned(&self) -> usize {
        self.directories_scanned
    }

    pub closed spec fn spec_matches(&self) -> Seq<SearchMatch> {
        self.matches@
    }

    pub closed spec fn spec_error(&self) -> Option<ScanError> {
        self.error
    }

    pub fn new() -> (a: Aggregator)
        ensures
            a.spec_files_scanned() == 0,
            a.spec_directories_scanned() == 0,
            a.spec_matches() == Seq::<SearchMatch>::empty(),
            a.spec_error() is None,
    {
        Aggregator {
            files_scanned: 0,
            directories_scanned: 0,
            matches: Vec::new(),
            error: None,
        }
    }

    pub fn files_scanned(&self) -> (n: usize)
        ensures
            n == self.spec_files_scanned(),
    {
        self.files_scanned
    }

    pub fn directories_scanned(&self) -> (n: usize)
        ensures
            n == self.spec_directories_scanned(),
    {
        self.directories_scanned
    }

    pub fn has_error(&self) -> (b: bool)
        ensures
            b <==> self.spec_error() is Some,
    {
        self.error.is_some()
    }

    /// Counts one dispatched file task.  Every file the walker hands to the
    /// scheduler is counted exactly once, whatever its task later does.
    pub fn record_file(&mut self)
        requires
            old(self).spec_files_scanned() < usize::MAX,
        ensures
            final(self).spec_files_scanned() == old(self).spec_files_scanned() + 1,
            final(self).spec_directories_scanned() == old(self).spec_directories_scanned(),
            final(self).spec_matches() == old(self).spec_matches(),
            final(self).spec_error() == old(self).spec_error(),
    {
        self.files_scanned = self.files_scanned + 1;
    }

    /// Counts one directory.  Directories are never scanned for content.
    pub fn record_directory(&mut self)
        requires
            old(self).spec_directories_scanned() < usize::MAX,
        ensures
            final(self).spec_directories_scanned() == old(self).spec_directories_scanned() + 1,
            final(self).spec_files_scanned() == old(self).spec_files_scanned(),
            final(self).spec_matches() == old(self).spec_matches(),
            final(self).spec_error() == old(self).spec_error(),
    {
        self.directories_scanned = self.directories_scanned + 1;
    }

    /// Appends one record.  No ordering is imposed and nothing is
    /// deduplicated.
    pub fn push_match(&mut self, m: SearchMatch)
        ensures
            final(self).spec_matches() == old(self).spec_matches().push(m),
            final(self).spec_files_scanned() == old(self).spec_files_scanned(),
            final(self).spec_directories_scanned() == old(self).spec_directories_scanned(),
            final(self).spec_error() == old(self).spec_error(),
    {
        self.matches.push(m);
    }

    /// Appends a whole task's records, in their order.
    pub fn push_matches(&mut self, ms: Vec<SearchMatch>)
        ensures
            final(self).spec_matches() == old(self).spec_matches() + ms@,
            final(self).spec_files_scanned() == old(self).spec_files_scanned(),
            final(self).spec_directories_scanned() == old(self).spec_directories_scanned(),
            final(self).spec_error() == old(self).spec_error(),
    {
        let mut incoming = ms;
        self.matches.append(&mut incoming);
    }

    /// Latches an error: the first reported error is retained and every later
    /// one is discarded.
    pub fn latch_error(&mut self, e: ScanError)
        ensures
            old(self).spec_error() is None ==> final(self).spec_error() == Some(e),
            old(self).spec_error() is Some ==> final(self).spec_error() == old(self).spec_error(),
            final(self).spec_files_scanned() == old(self).spec_files_scanned(),
            final(self).spec_directories_scanned() == old(self).spec_directories_scanned(),
            final(self).spec_matches() == old(self).spec_matches(),
    {
        if self.error.is_none() {
            self.error = Some(e);
        }
    }

    /// Freezes the run.  A latched error supersedes everything: the
    /// accumulated matches are discarded and that error alone is returned.
    /// Otherwise the result carries the exact counters, every accumulated
    /// record in arrival order, the timestamps bracketing the run, and a
    /// fresh identifier.
    pub fn finalize(self, scan_started_at: u64, scan_completed_at: u64) -> (r: Result<
        SearchResult,
        ScanError,
    >)
        ensures
            self.spec_error() is Some ==> r == Result::<SearchResult, ScanError>::Err(
                self.spec_error()->0,
            ),
            self.spec_error() is None ==> {
                &&& r is Ok
                &&& r->Ok_0.scan_started_at == scan_started_at
                &&& r->Ok_0.scan_completed_at == scan_completed_at
                &&& r->Ok_0.total_files_scanned == self.spec_files_scanned()
                &&& r->Ok_0.total_directories_scanned == self.spec_directories_scanned()
                &&& r->Ok_0.matches@ == self.spec_matches()
                &&& r->Ok_0.uuid@.len() == 36
            },
    {
        match self.error {
            Some(e) => Err(e),
            None => Ok(
                SearchResult {
                    uuid: fresh_uuid(),
                    scan_started_at,
                    scan_completed_at,
                    total_files_scanned: self.files_scanned,
                    total_directories_scanned: self.directories_scanned,
                    matches: self.matches,
                },
            ),
        }
    }
}

} // verus!
