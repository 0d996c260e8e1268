//! A recursive, parallel content-scanning engine: a directory tree is walked,
//! eligible files are read, and every compiled byte pattern is evaluated
//! against every file's bytes.  Matches are reported with their exact byte
//! offsets, the captured bytes, a clamped context window, and the bytes of
//! every participating capture group, together with run-level counters and a
//! single latched error.
//!
//! This crate holds the verified logic of the engine: pattern compilation,
//! per-buffer matching and extraction, the per-file task decisions, the
//! bounded-pool discipline, and the result/error aggregation protocol.
//! Filesystem walking, file reads, and the thread pool that drives the tasks
//! live outside it and hand this crate plain values.

mod aggregate;
mod config;
mod errors;
mod extract;
mod pattern;
mod records;
mod scan;
mod schedule;
mod task;

pub use aggregate::Aggregator;
pub use config::ScanConfig;
pub use config::resolve_config;
pub use errors::PatternError;
pub use errors::ScanError;
pub use errors::ScanErrorKind;
pub use extract::build_record;
pub use extract::context_bounds;
pub use extract::context_hi;
pub use extract::context_lo;
pub use extract::copy_range;
pub use extract::lemma_context_window_clamped;
pub use extract::lemma_record_offsets_wf;
pub use extract::record_matches;
pub use pattern::CompiledPattern;
pub use pattern::MatchSpans;
pub use pattern::PatternSpec;
pub use pattern::RawGroup;
pub use pattern::RawMatch;
pub use pattern::captures_of;
pub use pattern::compile_patterns;
pub use pattern::raw_match_wf;
pub use pattern::regex_source_ok;
pub use pattern::spans_of;
pub use records::SearchMatch;
pub use records::SearchResult;
pub use records::match_offsets_wf;
pub use scan::FilterAction;
pub use scan::MatchFilter;
pub use scan::NoFilter;
pub use scan::buffer_scan_ok;
pub use scan::filter_step;
pub use scan::no_filters;
pub use scan::record_sound;
pub use scan::record_sound_for;
pub use scan::records_match_spans;
pub use scan::scan_buffer;
pub use scan::scan_one_pattern;
pub use schedule::EntryAction;
pub use schedule::EntryKind;
pub use schedule::PoolState;
pub use schedule::classify_entry;
pub use task::FileEvent;
pub use task::run_file_task;
pub use task::size_admitted;
