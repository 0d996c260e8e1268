//! The per-file scanning engine: every compiled pattern is run over one
//! file's bytes in input order, every match becomes a full record, and the
//! optional per-pattern filter callback decides which records survive.

use vstd::prelude::*;
use crate::errors::ScanError;
use crate::errors::ScanErrorKind;
use crate::extract::build_record;
use crate::extract::record_matches;
use crate::pattern::CompiledPattern;
use crate::pattern::MatchSpans;
use crate::pattern::captures_of;
use crate::pattern::raw_match_wf;
use crate::pattern::spans_of;
use crate::records::SearchMatch;

verus! {

/// A per-match filter callback: an external collaborator that the engine
/// calls synchronously with one finished record.  `Ok(true)` discards the
/// record, `Ok(false)` keeps it, and `Err` carries the callback's own failure
/// message.  Nothing is assumed of an implementation's behaviour.
pub trait MatchFilter {
    fn judge(&self, m: &SearchMatch) -> Result<bool, String>;
}

/// The filter that keeps everything: the stand-in where a pattern carries no
/// callback.
pub struct NoFilter;

impl MatchFilter for NoFilter {
    fn judge(&self, _m: &SearchMatch) -> Result<bool, String> {
        Ok(false)
    }
}

/// What the engine does with one record once its filter has answered.
pub enum FilterAction {
    Keep,
    Discard,
    Fail(ScanError),
}

/// Turns one filter verdict into the engine's action on the record: a `true`
/// verdict discards the record, a `false` verdict keeps it, and a callback
/// failure aborts the file's task with a `FilterFailed` error carrying the
/// callback's message.
pub fn filter_step(verdict: Result<bool, String>, file_path: &String) -> (a: FilterAction)
    ensures
        verdict is Ok && verdict->Ok_0 == true ==> a is Discard,
        verdict is Ok && verdict->Ok_0 == false ==> a is Keep,
        verdict is Err ==> {
            &&& a is Fail
            &&& a->Fail_0.kind == ScanErrorKind::FilterFailed
            &&& a->Fail_0.file_path@ == file_path@
            &&& a->Fail_0.message@ == verdict->Err_0@
        },
{
    match verdict {
        Ok(true) => FilterAction::Discard,
        Ok(false) => FilterAction::Keep,
        Err(message) => FilterAction::Fail(ScanError::filter_failed(file_path.clone(), message)),
    }
}

/// Every record in `recs` reports, in order, exactly the match in `spans` at
/// its own index.
pub open spec fn records_match_spans(
    recs: Seq<SearchMatch>,
    spans: Seq<MatchSpans>,
    hay: Seq<u8>,
    desired: nat,
    file: Seq<char>,
    tag: Seq<char>,
    source: Seq<char>,
) -> bool {
    &&& recs.len() == spans.len()
    &&& forall|i: int|
        0 <= i < spans.len() ==> record_matches(
            #[trigger] recs[i],
            spans[i],
            hay,
            desired,
            file,
            tag,
            source,
        )
}

/// The record reports a match that the pattern with this tag and source
/// really has in `hay`.
pub open spec fn record_sound_for(
    rec: SearchMatch,
    tag: Seq<char>,
    source: Seq<char>,
    hay: Seq<u8>,
    desired: nat,
    file: Seq<char>,
) -> bool {
    exists|j: int|
        #![auto]
        {
            &&& 0 <= j < captures_of(source, hay).len()
            &&& record_matches(rec, captures_of(source, hay)[j], hay, desired, file, tag, source)
        }
}

/// The record reports a match that some pattern in `pats` really has in
/// `hay`, under that pattern's tag and source.
pub open spec fn record_sound(
    rec: SearchMatch,
    pats: Seq<CompiledPattern>,
    hay: Seq<u8>,
    desired: nat,
    file: Seq<char>,
) -> bool {
    exists|p: int|
        #![auto]
        {
            &&& 0 <= p < pats.len()
            &&& record_sound_for(rec, pats[p].spec_tag(), pats[p].spec_source(), hay, desired, file)
        }
}

/// No pattern carries a filter.
pub open spec fn no_filters<F>(filters: Seq<Option<F>>) -> bool {
    forall|i: int| 0 <= i < filters.len() ==> (#[trigger] filters[i]) is None
}

/// The exact unfiltered result of running every pattern over `hay` in input
/// order: the records are the patterns' match lists, concatenated.
pub open spec fn buffer_scan_ok(
    recs: Seq<SearchMatch>,
    pats: Seq<CompiledPattern>,
    hay: Seq<u8>,
    desired: nat,
    file: Seq<char>,
) -> bool
    decreases pats.len(),
{
    if pats.len() == 0 {
        recs.len() == 0
    } else {
        let spans = captures_of(pats.last().spec_source(), hay);
        &&& recs.len() >= spans.len()
        &&& buffer_scan_ok(
            recs.take(recs.len() - spans.len()),
            pats.drop_last(),
            hay,
            desired,
            file,
        )
        &&& records_match_spans(
            recs.skip(recs.len() - spans.len()),
            spans,
            hay,
            desired,
            file,
            pats.last().spec_tag(),
            pats.last().spec_source(),
        )
    }
}

/// Runs one pattern over the buffer: every match becomes a record, and the
/// filter, if any, judges each record as it is built.  Without a filter the
/// result is exactly the pattern's match list; a filter can only drop records
/// or abort the task with `FilterFailed`.
pub fn scan_one_pattern<F: MatchFilter>(
    file_name: &String,
    pat: &CompiledPattern,
    filter: Option<&F>,
    buf: &Vec<u8>,
    desired_context: usize,
) -> (r: Result<Vec<SearchMatch>, ScanError>)
    ensures
        filter is None ==> r is Ok,
        filter is None && r is Ok ==> records_match_spans(
            r->Ok_0@,
            captures_of(pat.spec_source(), buf@),
            buf@,
            desired_context as nat,
            file_name@,
            pat.spec_tag(),
            pat.spec_source(),
        ),
        r is Ok ==> r->Ok_0@.len() <= captures_of(pat.spec_source(), buf@).len(),
        r is Ok ==> (forall|i: int|
            0 <= i < r->Ok_0@.len() ==> record_sound_for(
                #[trigger] r->Ok_0@[i],
                pat.spec_tag(),
                pat.spec_source(),
                buf@,
                desired_context as nat,
                file_name@,
            )),
        r is Err ==> {
            &&& r->Err_0.kind == ScanErrorKind::FilterFailed
            &&& r->Err_0.file_path@ == file_name@
        },
{
    let ghost spans = captures_of(pat.spec_source(), buf@);
    let raw = pat.captures(buf);
    let mut recs: Vec<SearchMatch> = Vec::new();
    let mut idx: usize = 0;
    while idx < raw.len()
        invariant
            idx <= raw@.len(),
            spans == captures_of(pat.spec_source(), buf@),
            spans_of(raw@) == spans,
            forall|i: int| 0 <= i < raw@.len() ==> raw_match_wf(#[trigger] raw@[i], buf@.len() as nat),
            recs@.len() <= idx,
            filter is None ==> recs@.len() == idx,
            filter is None ==> (forall|i: int|
                0 <= i < idx ==> record_matches(
                    #[trigger] recs@[i],
                    spans[i],
                    buf@,
                    desired_context as nat,
                    file_name@,
                    pat.spec_tag(),
                    pat.spec_source(),
                )),
            forall|i: int|
                0 <= i < recs@.len() ==> record_sound_for(
                    #[trigger] recs@[i],
                    pat.spec_tag(),
                    pat.spec_source(),
                    buf@,
                    desired_context as nat,
                    file_name@,
                ),
        decreases raw@.len() - idx,
    {
        let m = &raw[idx];
        let rec = build_record(file_name, pat.tag(), pat.source(), buf, m, desired_context);
        proof {
            assert(spans[idx as int] == raw@[idx as int]@);
            assert(record_matches(
                rec,
                spans[idx as int],
                buf@,
                desired_context as nat,
                file_name@,
                pat.spec_tag(),
                pat.spec_source(),
            ));
        }
        match filter {
            None => {
                recs.push(rec);
            },
            Some(f) => {
                let verdict = f.judge(&rec);
                match filter_step(verdict, file_name) {
                    FilterAction::Keep => {
                        recs.push(rec);
                    },
                    FilterAction::Discard => {},
                    FilterAction::Fail(e) => {
                        return Err(e);
                    },
                }
            },
        }
        idx += 1;
    }
    Ok(recs)
}

/// Runs every pattern over the buffer in input order and concatenates the
/// surviving records.  Where no pattern carries a filter the result is exact:
/// the patterns' match lists, in order.  A filter can only drop records; the
/// first failing callback aborts the task with `FilterFailed`.  Every record
/// returned reports a match some pattern really has in the buffer.
pub fn scan_buffer<F: MatchFilter>(
    file_name: &String,
    patterns: &Vec<CompiledPattern>,
    filters: &Vec<Option<F>>,
    buf: &Vec<u8>,
    desired_context: usize,
) -> (r: Result<Vec<SearchMatch>, ScanError>)
    requires
        filters@.len() == patterns@.len(),
    ensures
        no_filters(filters@) ==> r is Ok,
        r is Ok && no_filters(filters@) ==> buffer_scan_ok(
            r->Ok_0@,
            patterns@,
            buf@,
            desired_context as nat,
            file_name@,
        ),
        r is Ok ==> (forall|i: int|
            0 <= i < r->Ok_0@.len() ==> record_sound(
                #[trigger] r->Ok_0@[i],
                patterns@,
                buf@,
                desired_context as nat,
                file_name@,
            )),
        r is Err ==> {
            &&& r->Err_0.kind == ScanErrorKind::FilterFailed
            &&& r->Err_0.file_path@ == file_name@
        },
{
    let ghost ctx = desired_context as nat;
    let mut recs: Vec<SearchMatch> = Vec::new();
    let mut p: usize = 0;
    while p < patterns.len()
        invariant
            p <= patterns@.len(),
            filters@.len() == patterns@.len(),
            no_filters(filters@) ==> buffer_scan_ok(
                recs@,
                patterns@.subrange(0, p as int),
                buf@,
                ctx,
                file_name@,
            ),
            forall|i: int|
                0 <= i < recs@.len() ==> record_sound(
                    #[trigger] recs@[i],
                    patterns@,
                    buf@,
                    ctx,
                    file_name@,
                ),
            ctx == desired_context as nat,
        decreases patterns@.len() - p,
    {
        let filter: Option<&F> = filters[p].as_ref();
        let outcome = scan_one_pattern(file_name, &patterns[p], filter, buf, desired_context);
        match outcome {
            Ok(mut found) => {
                proof {
                    let pats_next = patterns@.subrange(0, p + 1int);
                    let spans = captures_of(patterns@[p as int].spec_source(), buf@);
                    assert(pats_next.last() == patterns@[p as int]);
                    assert(pats_next.drop_last() =~= patterns@.subrange(0, p as int));
                    assert forall|i: int| 0 <= i < found@.len() implies record_sound(
                        #[trigger] found@[i],
                        patterns@,
                        buf@,
                        ctx,
                        file_name@,
                    ) by {
                        assert(record_sound_for(
                            found@[i],
                            patterns@[p as int].spec_tag(),
                            patterns@[p as int].spec_source(),
                            buf@,
                            ctx,
                            file_name@,
                        ));
                    }
                    if no_filters(filters@) {
                        assert(filters@[p as int] is None);
                        let combined = recs@ + found@;
                        assert(combined.len() - spans.len() == recs@.len());
                        assert(combined.take(recs@.len() as int) =~= recs@);
                        assert(combined.skip(recs@.len() as int) =~= found@);
                        assert(buffer_scan_ok(combined, pats_next, buf@, ctx, file_name@));
                    }
                }
                recs.append(&mut found);
            },
            Err(e) => {
                return Err(e);
            },
        }
        p += 1;
    }
    proof {
        assert(patterns@.subrange(0, patterns@.len() as int) =~= patterns@);
    }
    Ok(recs)
}

} // verus!
