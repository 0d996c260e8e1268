//! The per-file task: the size cap and the mapping from what happened at the
//! filesystem (open, stat, read) to the task's outcome.  The I/O itself
//! happens outside this crate; the task logic here receives its result as an
//! event and decides everything else.

use vstd::prelude::*;
use crate::errors::ScanError;
use crate::errors::ScanErrorKind;
use crate::pattern::CompiledPattern;
use crate::records::SearchMatch;
use crate::scan::MatchFilter;
use crate::scan::buffer_scan_ok;
use crate::scan::no_filters;
use crate::scan::record_sound;
use crate::scan::scan_buffer;

verus! {

/// What the filesystem did for one file, as handed to the task logic: one of
/// the three I/O failures with its message, or the file's entire contents.
pub enum FileEvent {
    OpenFailed(String),
    StatFailed(String),
    ReadFailed(String),
    Contents(Vec<u8>),
}

/// The size cap: a file of `size` bytes is scanned exactly when no cap is set
/// (`max_file_size == 0`) or the size does not exceed the cap.  An oversized
/// file is skipped silently, never reported as an error.
pub fn size_admitted(size: u64, max_file_size: usize) -> (b: bool)
    ensures
        b <==> (max_file_size == 0 || size <= max_file_size),
{
    max_file_size == 0 || size <= max_file_size as u64
}

/// Decides one file task from what the filesystem did.  Each I/O failure
/// becomes exactly its own error kind, carrying the file's path and the
/// underlying message, and no records.  Delivered contents are scanned with
/// every pattern; without filters the records are exact, and a failing filter
/// callback yields `FilterFailed`.
pub fn run_file_task<F: MatchFilter>(
    file_name: &String,
    event: FileEvent,
    patterns: &Vec<CompiledPattern>,
    filters: &Vec<Option<F>>,
    desired_context: usize,
) -> (r: Result<Vec<SearchMatch>, ScanError>)
    requires
        filters@.len() == patterns@.len(),
    ensures
        event is OpenFailed ==> {
            &&& r is Err
            &&& r->Err_0.kind == ScanErrorKind::OpenFailed
            &&& r->Err_0.file_path@ == file_name@
            &&& r->Err_0.message@ == event->OpenFailed_0@
        },
        event is StatFailed ==> {
            &&& r is Err
            &&& r->Err_0.kind == ScanErrorKind::StatFailed
            &&& r->Err_0.file_path@ == file_name@
            &&& r->Err_0.message@ == event->StatFailed_0@
        },
        event is ReadFailed ==> {
            &&& r is Err
            &&& r->Err_0.kind == ScanErrorKind::ReadFailed
            &&& r->Err_0.file_path@ == file_name@
            &&& r->Err_0.message@ == event->ReadFailed_0@
        },
        event is Contents ==> {
            &&& (no_filters(filters@) ==> r is Ok)
            &&& (r is Ok && no_filters(filters@) ==> buffer_scan_ok(
                r->Ok_0@,
                patterns@,
                event->Contents_0@,
                desired_context as nat,
                file_name@,
            ))
            &&& (r is Ok ==> (forall|i: int|
                0 <= i < r->Ok_0@.len() ==> record_sound(
                    #[trigger] r->Ok_0@[i],
                    patterns@,
                    event->Contents_0@,
                    desired_context as nat,
                    file_name@,
                )))
            &&& (r is Err ==> {
                &&& r->Err_0.kind == ScanErrorKind::FilterFailed
                &&& r->Err_0.file_path@ == file_name@
            })
        },
{
    match event {
        FileEvent::OpenFailed(message) => Err(ScanError::open_failed(file_name.clone(), message)),
        FileEvent::StatFailed(message) => Err(ScanError::stat_failed(file_name.clone(), message)),
        FileEvent::ReadFailed(message) => Err(ScanError::read_failed(file_name.clone(), message)),
        FileEvent::Contents(buf) => scan_buffer(file_name, patterns, filters, &buf, desired_context),
    }
}

} // verus!
