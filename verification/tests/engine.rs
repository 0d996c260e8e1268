//! Per-buffer engine behaviour: pattern compilation, matching, context
//! clamping, capture groups, and the filter callback protocol.

use mystik_core::FilterAction;
use mystik_core::MatchFilter;
use mystik_core::NoFilter;
use mystik_core::PatternSpec;
use mystik_core::ScanErrorKind;
use mystik_core::SearchMatch;
use mystik_core::compile_patterns;
use mystik_core::filter_step;
use mystik_core::scan_buffer;

fn spec_of(tag: &str, source: &str) -> PatternSpec {
    PatternSpec { tag: tag.to_string(), source: source.to_string() }
}

fn scan_plain(
    specs: &[(&str, &str)],
    buf: &[u8],
    desired_context: usize,
) -> Vec<SearchMatch> {
    let specs: Vec<PatternSpec> = specs.iter().map(|(t, s)| spec_of(t, s)).collect();
    let patterns = compile_patterns(&specs).unwrap();
    let filters: Vec<Option<NoFilter>> = specs.iter().map(|_| None).collect();
    let file_name = "mem:test".to_string();
    let buffer: Vec<u8> = buf.to_vec();
    scan_buffer(&file_name, &patterns, &filters, &buffer, desired_context).unwrap()
}

#[test]
fn malformed_pattern_is_rejected_before_any_io() {
    let specs = vec![spec_of("bad", "foo(bar")];
    let err = compile_patterns(&specs).unwrap_err();
    assert_eq!(err.tag, "bad");
    assert_eq!(err.source, "foo(bar");
    assert!(!err.message.is_empty());
}

#[test]
fn first_failing_pattern_is_reported() {
    let specs = vec![
        spec_of("ok", "abc"),
        spec_of("first_bad", "("),
        spec_of("second_bad", "["),
    ];
    let err = compile_patterns(&specs).unwrap_err();
    assert_eq!(err.tag, "first_bad");
    assert_eq!(err.source, "(");
}

#[test]
fn valid_patterns_compile_in_input_order() {
    let specs = vec![spec_of("one", "a+"), spec_of("two", "b+")];
    let compiled = compile_patterns(&specs).unwrap();
    assert_eq!(compiled.len(), 2);
    assert_eq!(compiled[0].tag().as_str(), "one");
    assert_eq!(compiled[0].source().as_str(), "a+");
    assert_eq!(compiled[1].tag().as_str(), "two");
    assert_eq!(compiled[1].source().as_str(), "b+");
}

#[test]
fn empty_pattern_list_compiles_to_nothing() {
    let specs: Vec<PatternSpec> = Vec::new();
    let compiled = compile_patterns(&specs).unwrap();
    assert!(compiled.is_empty());
}

#[test]
fn end_to_end_secret_example() {
    let buf = b"....SECRET=abc123....";
    let records = scan_plain(&[("secret", "SECRET=([a-z0-9]+)")], buf, 4);
    assert_eq!(records.len(), 1);
    let rec = &records[0];
    assert_eq!(rec.pattern_tag, "secret");
    assert_eq!(rec.pattern, "SECRET=([a-z0-9]+)");
    assert_eq!(rec.file_name, "mem:test");
    assert_eq!(rec.capture, b"SECRET=abc123".to_vec());
    assert_eq!(rec.capture_start, 4);
    assert_eq!(rec.capture_end, 17);
    assert_eq!(rec.groups, vec![b"abc123".to_vec()]);
    assert_eq!(rec.context_start, 0);
    assert_eq!(rec.context_end, buf.len());
    assert_eq!(rec.context, buf.to_vec());
    assert_eq!(rec.uuid.len(), 36);
}

#[test]
fn context_clamps_at_start_of_buffer() {
    let records = scan_plain(&[("head", "ab")], b"abcdefgh", 128);
    assert_eq!(records.len(), 1);
    assert_eq!(records[0].capture_start, 0);
    assert_eq!(records[0].context_start, 0);
    assert_eq!(records[0].context_end, 8);
    assert_eq!(records[0].context, b"abcdefgh".to_vec());
}

#[test]
fn context_clamps_at_end_of_buffer() {
    let records = scan_plain(&[("tail", "gh")], b"abcdefgh", 128);
    assert_eq!(records.len(), 1);
    assert_eq!(records[0].capture_end, 8);
    assert_eq!(records[0].context_end, 8);
    assert_eq!(records[0].context_start, 0);
}

#[test]
fn context_window_in_the_middle_is_exact() {
    let records = scan_plain(&[("mid", "ef")], b"abcdefghij", 2);
    assert_eq!(records.len(), 1);
    let rec = &records[0];
    assert_eq!(rec.capture_start, 4);
    assert_eq!(rec.capture_end, 6);
    assert_eq!(rec.context_start, 2);
    assert_eq!(rec.context_end, 8);
    assert_eq!(rec.context, b"cdefgh".to_vec());
}

#[test]
fn every_non_overlapping_match_is_reported() {
    let records = scan_plain(&[("word", "ab")], b"xxabyyabzzab", 0);
    assert_eq!(records.len(), 3);
    assert_eq!(records[0].capture_start, 2);
    assert_eq!(records[1].capture_start, 6);
    assert_eq!(records[2].capture_start, 10);
    for rec in &records {
        assert_eq!(rec.capture, b"ab".to_vec());
        assert_eq!(rec.context_start, rec.capture_start);
        assert_eq!(rec.context_end, rec.capture_end);
    }
}

#[test]
fn patterns_report_in_input_order() {
    let records = scan_plain(&[("later", "b"), ("earlier", "a")], b"ab", 0);
    assert_eq!(records.len(), 2);
    assert_eq!(records[0].pattern_tag, "later");
    assert_eq!(records[0].capture_start, 1);
    assert_eq!(records[1].pattern_tag, "earlier");
    assert_eq!(records[1].capture_start, 0);
}

#[test]
fn non_participating_groups_are_omitted() {
    let records = scan_plain(&[("alt", "(a)|(b)")], b"b", 0);
    assert_eq!(records.len(), 1);
    assert_eq!(records[0].groups, vec![b"b".to_vec()]);
}

#[test]
fn no_match_yields_no_records() {
    let records = scan_plain(&[("nothing", "zzz")], b"abcdef", 8);
    assert!(records.is_empty());
}

#[test]
fn record_identifiers_have_uuid_shape() {
    let records = scan_plain(&[("a", "a")], b"aa", 0);
    assert_eq!(records.len(), 2);
    assert_eq!(records[0].uuid.len(), 36);
    assert_eq!(records[1].uuid.len(), 36);
}

struct DiscardAll;

impl MatchFilter for DiscardAll {
    fn judge(&self, _m: &SearchMatch) -> Result<bool, String> {
        Ok(true)
    }
}

struct FailAlways;

impl MatchFilter for FailAlways {
    fn judge(&self, _m: &SearchMatch) -> Result<bool, String> {
        Err("callback exploded".to_string())
    }
}

#[test]
fn always_true_filter_discards_every_match() {
    let specs = vec![spec_of("secret", "SECRET=([a-z0-9]+)")];
    let patterns = compile_patterns(&specs).unwrap();
    let filters: Vec<Option<DiscardAll>> = vec![Some(DiscardAll)];
    let file_name = "mem:test".to_string();
    let buffer = b"....SECRET=abc123....".to_vec();

    let mut agg = mystik_core::Aggregator::new();
    agg.record_file();
    let records = scan_buffer(&file_name, &patterns, &filters, &buffer, 4).unwrap();
    assert!(records.is_empty());
    agg.push_matches(records);

    // The file still counts as scanned even though every match was filtered.
    let result = agg.finalize(1, 2).unwrap();
    assert_eq!(result.total_files_scanned, 1);
    assert!(result.matches.is_empty());
}

#[test]
fn failing_filter_aborts_with_filter_failed() {
    let specs = vec![spec_of("secret", "SECRET=([a-z0-9]+)")];
    let patterns = compile_patterns(&specs).unwrap();
    let filters: Vec<Option<FailAlways>> = vec![Some(FailAlways)];
    let file_name = "mem:test".to_string();
    let buffer = b"....SECRET=abc123....".to_vec();
    let err = scan_buffer(&file_name, &patterns, &filters, &buffer, 4).unwrap_err();
    assert_eq!(err.kind, ScanErrorKind::FilterFailed);
    assert_eq!(err.file_path, "mem:test");
    assert_eq!(err.message, "callback exploded");
}

#[test]
fn filter_step_maps_each_verdict_to_its_action() {
    let path = "somewhere".to_string();
    assert!(matches!(filter_step(Ok(true), &path), FilterAction::Discard));
    assert!(matches!(filter_step(Ok(false), &path), FilterAction::Keep));
    match filter_step(Err("oops".to_string()), &path) {
        FilterAction::Fail(e) => {
            assert_eq!(e.kind, ScanErrorKind::FilterFailed);
            assert_eq!(e.file_path, "somewhere");
            assert_eq!(e.message, "oops");
        }
        _ => panic!("a failing verdict must abort the task"),
    }
}
