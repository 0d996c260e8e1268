//! Pattern compilation and matching.  The matching engine itself is the
//! `regex` crate: its compiled `regex::bytes::Regex` rides inside
//! `CompiledPattern`, and what its search returns is named by the
//! uninterpreted functions below, a function of the pattern source and the
//! haystack alone.

use vstd::prelude::*;
use crate::errors::PatternError;

verus! {

#[verifier::external_type_specification]
#[verifier::external_body]
pub struct ExRegex(regex::bytes::Regex);

/// One (tag, pattern-source) pair, not yet compiled.  The tag need not be
/// unique.
#[derive(Clone, Debug)]
pub struct PatternSpec {
    pub tag: String,
    pub source: String,
}

/// The span of one participating capture group, as byte offsets into the
/// haystack.
#[derive(Clone, Copy, Debug)]
pub struct RawGroup {
    pub start: usize,
    pub end: usize,
}

/// One full match of one pattern: the overall span and the spans of the
/// participating capture groups beyond the whole-match group, in group-index
/// order.  Non-participating groups are omitted.
#[derive(Clone, Debug)]
pub struct RawMatch {
    pub start: usize,
    pub end: usize,
    pub groups: Vec<RawGroup>,
}

/// The mathematical shape of one match: offsets as unbounded naturals.
pub struct MatchSpans {
    pub start: nat,
    pub end: nat,
    pub groups: Seq<(nat, nat)>,
}

impl View for RawGroup {
    type V = (nat, nat);

    open spec fn view(&self) -> (nat, nat) {
        (self.start as nat, self.end as nat)
    }
}

impl View for RawMatch {
    type V = MatchSpans;

    open spec fn view(&self) -> MatchSpans {
        MatchSpans {
            start: self.start as nat,
            end: self.end as nat,
            groups: self.groups@.map_values(|g: RawGroup| g@),
        }
    }
}

/// The abstraction of a whole match list.
pub open spec fn spans_of(s: Seq<RawMatch>) -> Seq<MatchSpans> {
    s.map_values(|m: RawMatch| m@)
}

/// Every offset a match reports is a valid index into a haystack of `len`
/// bytes, and each span is properly ordered.
pub open spec fn raw_match_wf(m: RawMatch, len: nat) -> bool {
    &&& m.start <= m.end <= len
    &&& forall|j: int|
        0 <= j < m.groups@.len() ==> ((#[trigger] m.groups@[j]).start <= m.groups@[j].end <= len)
}

/// Whether `regex::bytes::Regex::new` accepts this pattern source.  The
/// answer depends on the source alone.
pub uninterp spec fn regex_source_ok(source: Seq<char>) -> bool;

/// Every non-overlapping match that the regex engine finds for the pattern
/// compiled from `source` when it is run over `hay`, in order of discovery.
/// The engine's answer depends on the source and the haystack alone.
pub uninterp spec fn captures_of(source: Seq<char>, hay: Seq<u8>) -> Seq<MatchSpans>;

/// One pattern ready to run: its tag, its source, and the regex compiled
/// from that source.  The fields are private: the only constructor is
/// `compile`, so the regex inside always came from the source beside it.
#[derive(Debug)]
pub struct CompiledPattern {
    tag: String,
    source: String,
    regex: regex::bytes::Regex,
}

impl CompiledPattern {
    pub closed spec fn spec_tag(&self) -> Seq<char> {
        self.tag@
    }

    pub closed spec fn spec_source(&self) -> Seq<char> {
        self.source@
    }

    pub fn tag(&self) -> (t: &String)
        ensures
            t@ == self.spec_tag(),
    {
        &self.tag
    }

    pub fn source(&self) -> (s: &String)
        ensures
            s@ == self.spec_source(),
    {
        &self.source
    }

    /// Relies on `regex::bytes::Regex::new`: it compiles the source or, for
    /// an invalid pattern, reports an error.  Whether it accepts the source
    /// is deterministic, named `regex_source_ok`.
    #[verifier::external_body]
    pub fn compile(tag: String, source: String) -> (r: Result<CompiledPattern, String>)
        ensures
            r is Ok <==> regex_source_ok(source@),
            r is Ok ==> r->Ok_0.spec_tag() == tag@ && r->Ok_0.spec_source() == source@,
    {
        match regex::bytes::Regex::new(&source) {
            Ok(regex) => Ok(CompiledPattern { tag, source, regex }),
            Err(error) => Err(format!("{}", error)),
        }
    }

    /// Relies on `regex::bytes::Regex::captures_iter`: it yields every
    /// successive non-overlapping match, and each reported offset pair is a
    /// valid, ordered span within the haystack (`Match::start() <=
    /// Match::end()`, and `&hay[start..end]` is the matched text).  The
    /// regex here was compiled from `self.source` (the only constructor
    /// guarantees it), so the result is named `captures_of` over that source
    /// and the haystack.
    #[verifier::external_body]
    pub fn captures(&self, hay: &Vec<u8>) -> (r: Vec<RawMatch>)
        ensures
            spans_of(r@) == captures_of(self.spec_source(), hay@),
            forall|i: int| 0 <= i < r@.len() ==> raw_match_wf(#[trigger] r@[i], hay@.len() as nat),
    {
        let mut out: Vec<RawMatch> = Vec::new();
        for caps in self.regex.captures_iter(hay.as_slice()) {
            let full = caps.get(0).unwrap();
            let mut groups: Vec<RawGroup> = Vec::new();
            for i in 1..caps.len() {
                if let Some(g) = caps.get(i) {
                    groups.push(RawGroup { start: g.start(), end: g.end() });
                }
            }
            out.push(RawMatch { start: full.start(), end: full.end(), groups });
        }
        out
    }
}

/// Compiles every (tag, source) pair into a ready-to-run pattern, in stable
/// input order.  On the first source the regex engine rejects, the whole
/// operation fails with that pattern's tag and source; no partial result is
/// returned.  No I/O is performed.
pub fn compile_patterns(specs: &Vec<PatternSpec>) -> (r: Result<
    Vec<CompiledPattern>,
    PatternError,
>)
    ensures
        r is Ok <==> (forall|k: int|
            0 <= k < specs@.len() ==> regex_source_ok(#[trigger] specs@[k].source@)),
        r is Ok ==> {
            &&& r->Ok_0@.len() == specs@.len()
            &&& forall|k: int|
                0 <= k < specs@.len() ==> {
                    &&& (#[trigger] r->Ok_0@[k]).spec_tag() == specs@[k].tag@
                    &&& r->Ok_0@[k].spec_source() == specs@[k].source@
                }
        },
        r is Err ==> (exists|j: int|
            {
                &&& 0 <= j < specs@.len()
                &&& !regex_source_ok(#[trigger] specs@[j].source@)
                &&& r->Err_0.tag@ == specs@[j].tag@
                &&& r->Err_0.source@ == specs@[j].source@
                &&& forall|k: int| 0 <= k < j ==> regex_source_ok(#[trigger] specs@[k].source@)
            }),
{
    let mut compiled: Vec<CompiledPattern> = Vec::new();
    let mut i: usize = 0;
    while i < specs.len()
        invariant
            i <= specs@.len(),
            compiled@.len() == i,
            forall|k: int| 0 <= k < i ==> regex_source_ok(#[trigger] specs@[k].source@),
            forall|k: int|
                0 <= k < i ==> {
                    &&& (#[trigger] compiled@[k]).spec_tag() == specs@[k].tag@
                    &&& compiled@[k].spec_source() == specs@[k].source@
                },
        decreases specs@.len() - i,
    {
        let tag = specs[i].tag.clone();
        let source = specs[i].source.clone();
        match CompiledPattern::compile(tag, source) {
            Ok(pattern) => {
                compiled.push(pattern);
            },
            Err(message) => {
                let failed = PatternError {
                    tag: specs[i].tag.clone(),
                    source: specs[i].source.clone(),
                    message,
                };
                proof {
                    assert(!regex_source_ok(specs@[i as int].source@));
                }
                return Err(failed);
            },
        }
        i += 1;
    }
    Ok(compiled)
}

} // verus!
