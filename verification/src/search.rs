//! Pattern search. Matching itself is the work of the `regex_lite` engine;
//! this module names what the engine returns and puts the text back together
//! around replaced matches.

use regex_lite::Regex;
use vstd::prelude::*;
use vstd::string::*;

verus! {

/// The capture groups of one match, by index: group 0 is the whole match, and
/// a group that took no part in the match is `None`.
pub type Groups = Seq<Option<Seq<char>>>;

/// The successive non-overlapping matches that `regex_lite` finds for
/// `pattern` in `hay`, in the order of their position; `None` when the engine
/// rejects the pattern.
pub uninterp spec fn regex_captures(pattern: Seq<char>, hay: Seq<char>) -> Option<
    Seq<Seq<Option<Seq<char>>>>,
>;

/// The stretches of `hay` that `regex_lite` leaves between the matches of
/// `pattern`: the text before the first match, between each two neighbours,
/// and after the last; `None` when the engine rejects the pattern.
pub uninterp spec fn regex_split(pattern: Seq<char>, hay: Seq<char>) -> Option<Seq<Seq<char>>>;

/// Text of group `i` of a match, empty where the group is missing or took no
/// part.
pub open spec fn group(m: Groups, i: int) -> Seq<char> {
    if 0 <= i < m.len() {
        match m[i] {
            Some(t) => t,
            None => Seq::empty(),
        }
    } else {
        Seq::empty()
    }
}

/// The whole text of a match.
pub open spec fn whole(m: Groups) -> Seq<char> {
    group(m, 0)
}

/// Stretch `i` of the unmatched text, empty past the last one.
pub open spec fn gap(gaps: Seq<Seq<char>>, i: int) -> Seq<char> {
    if 0 <= i < gaps.len() {
        gaps[i]
    } else {
        Seq::empty()
    }
}

/// The first `n` stretches, each followed by its replacement.
pub open spec fn spliced_upto(gaps: Seq<Seq<char>>, reps: Seq<Seq<char>>, n: nat) -> Seq<char>
    decreases n,
{
    if n == 0 {
        Seq::empty()
    } else {
        spliced_upto(gaps, reps, (n - 1) as nat) + gap(gaps, n - 1) + reps[n - 1]
    }
}

/// The unmatched stretches with one replacement between each two, in order.
pub open spec fn spliced(gaps: Seq<Seq<char>>, reps: Seq<Seq<char>>) -> Seq<char> {
    spliced_upto(gaps, reps, reps.len()) + gap(gaps, reps.len() as int)
}

/// The whole text of each match.
pub open spec fn wholes(found: Seq<Groups>) -> Seq<Seq<char>> {
    Seq::new(found.len(), |i: int| whole(found[i]))
}

/// What a search yields: the matches, and the stretches of text before,
/// between and after them. A stretch or a group that a scan lacks counts as
/// empty.
#[derive(Clone, Debug)]
pub struct Scan {
    pub gaps: Vec<String>,
    pub found: Vec<Vec<Option<String>>>,
}

/// A scan as contracts see it.
pub struct ScanView {
    pub gaps: Seq<Seq<char>>,
    pub found: Seq<Groups>,
}

impl View for Scan {
    type V = ScanView;

    open spec fn view(&self) -> ScanView {
        ScanView { gaps: self.gaps.deep_view(), found: self.found.deep_view() }
    }
}

impl ScanView {
    /// The text that was searched: every stretch and every match in place.
    pub open spec fn source(self) -> Seq<char> {
        spliced(self.gaps, wholes(self.found))
    }
}

/// Whether `gaps` are the stretches around the matches `found` in `hay`.
pub open spec fn lies_between(
    gaps: Seq<Seq<char>>,
    found: Option<Seq<Seq<Option<Seq<char>>>>>,
    hay: Seq<char>,
) -> bool {
    found matches Some(f) && gaps.len() == f.len() + 1 && spliced(gaps, wholes(f)) == hay
}

/// The matches of `pattern` in `hay` and the text around them. A pattern that
/// the engine rejects matches nowhere.
pub open spec fn searched(pattern: Seq<char>, hay: Seq<char>) -> ScanView {
    match (regex_split(pattern, hay), regex_captures(pattern, hay)) {
        (Some(gaps), Some(found)) => ScanView { gaps, found },
        _ => ScanView { gaps: seq![hay], found: Seq::empty() },
    }
}

/// Calls `regex_lite::Regex::new` on `pattern` and, where that succeeds,
/// `Regex::captures_iter` on `hay`, reading each `Captures` group by group.
/// Trusted: the result is what `regex_captures` names.
#[verifier::external_body]
fn captures_iter(pattern: &str, hay: &str) -> (found: Option<Vec<Vec<Option<String>>>>)
    ensures
        found.deep_view() == regex_captures(pattern@, hay@),
{
    match Regex::new(pattern) {
        Ok(re) => Some(
            re.captures_iter(hay).map(
                |c| c.iter().map(|g| g.map(|m| m.as_str().to_string())).collect(),
            ).collect(),
        ),
        Err(_) => None,
    }
}

/// Calls `regex_lite::Regex::new` on `pattern` and, where that succeeds,
/// `Regex::split` on `hay`. Trusted: the result is what `regex_split` names;
/// the engine then also yields matches for this pattern, one between each two
/// stretches, and the stretches and matches in turn make up `hay`.
#[verifier::external_body]
fn split(pattern: &str, hay: &str) -> (gaps: Option<Vec<String>>)
    ensures
        gaps.deep_view() == regex_split(pattern@, hay@),
        gaps matches Some(g) ==> lies_between(
            g.deep_view(),
            regex_captures(pattern@, hay@),
            hay@,
        ),
{
    match Regex::new(pattern) {
        Ok(re) => Some(re.split(hay).map(|s| s.to_string()).collect()),
        Err(_) => None,
    }
}

/// Searches `hay` for `pattern`.
pub fn search(pattern: &str, hay: &str) -> (scan: Scan)
    ensures
        scan@ == searched(pattern@, hay@),
        scan@.gaps.len() == scan@.found.len() + 1,
        scan@.source() == hay@,
{
    let found = captures_iter(pattern, hay);
    let gaps = split(pattern, hay);
    match (gaps, found) {
        (Some(gaps), Some(found)) => Scan { gaps, found },
        _ => {
            let mut gaps: Vec<String> = Vec::new();
            gaps.push(String::from_str(hay));
            let scan = Scan { gaps, found: Vec::new() };
            proof {
                assert(scan@.gaps =~= seq![hay@]);
                assert(scan@.found =~= Seq::empty());
                assert(wholes(scan@.found) =~= Seq::empty());
                assert(scan@.source() =~= hay@);
            }
            scan
        },
    }
}

/// Text of group `i` of a match.
pub fn group_text(m: &Vec<Option<String>>, i: usize) -> (out: &str)
    ensures
        out@ == group(m.deep_view(), i as int),
{
    proof {
        reveal_strlit("");
    }
    if i < m.len() {
        assert(m.deep_view()[i as int] == m[i as int].deep_view());
        match &m[i] {
            Some(t) => t.as_str(),
            None => "",
        }
    } else {
        ""
    }
}

/// Stretch `i` of the unmatched text.
pub fn gap_text(gaps: &Vec<String>, i: usize) -> (out: &str)
    ensures
        out@ == gap(gaps.deep_view(), i as int),
{
    proof {
        reveal_strlit("");
    }
    if i < gaps.len() {
        assert(gaps.deep_view()[i as int] == gaps[i as int]@);
        gaps[i].as_str()
    } else {
        ""
    }
}

} // verus!
