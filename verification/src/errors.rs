//! The error taxonomy of one scan: a pattern that fails to compile aborts the
//! run before any file is touched; the four in-scan kinds each carry the
//! offending file path and an underlying message.

use vstd::prelude::*;

verus! {

/// The kind of an in-scan, per-file failure.
#[derive(Clone, Copy, PartialEq, Eq, Structural, Debug)]
pub enum ScanErrorKind {
    OpenFailed,
    StatFailed,
    ReadFailed,
    FilterFailed,
}

/// One fatal, reported in-scan condition.  At most the first observed error
/// is surfaced per scan.
#[derive(Clone, Debug)]
pub struct ScanError {
    pub kind: ScanErrorKind,
    pub file_path: String,
    pub message: String,
}

/// The pre-scan failure: a pattern source that does not compile.  The whole
/// scan aborts before any I/O begins.
#[derive(Clone, Debug)]
pub struct PatternError {
    pub tag: String,
    pub source: String,
    pub message: String,
}

impl ScanError {
    pub fn open_failed(file_path: String, message: String) -> (e: ScanError)
        ensures
            e.kind == ScanErrorKind::OpenFailed,
            e.file_path == file_path,
            e.message == message,
    {
        ScanError { kind: ScanErrorKind::OpenFailed, file_path, message }
    }

    pub fn stat_failed(file_path: String, message: String) -> (e: ScanError)
        ensures
            e.kind == ScanErrorKind::StatFailed,
            e.file_path == file_path,
            e.message == message,
    {
        ScanError { kind: ScanErrorKind::StatFailed, file_path, message }
    }

    pub fn read_failed(file_path: String, message: String) -> (e: ScanError)
        ensures
            e.kind == ScanErrorKind::ReadFailed,
            e.file_path == file_path,
            e.message == message,
    {
        ScanError { kind: ScanErrorKind::ReadFailed, file_path, message }
    }

    pub fn filter_failed(file_path: String, message: String) -> (e: ScanError)
        ensures
            e.kind == ScanErrorKind::FilterFailed,
            e.file_path == file_path,
            e.message == message,
    {
        ScanError { kind: ScanErrorKind::FilterFailed, file_path, message }
    }
}

} // verus!
