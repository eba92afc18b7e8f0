//! The dialogue in which the parameter candidates are confirmed and typed.
//! The library decides what is asked next and what an answer means; asking
//! and reading are left to the caller.

use crate::header::{Parameter, ParameterView, views};
use crate::order::holds;
use crate::text::{join, joined, pieces, split, trim, trimmed};
use vstd::prelude::*;
use vstd::string::*;

verus! {

/// Index of the first character at or after `i` that is not `c`, or the
/// length of `s` when only `c` follows.
pub open spec fn skip_char(s: Seq<char>, c: char, i: int) -> int
    decreases s.len() - i,
{
    if 0 <= i < s.len() && s[i] == c {
        skip_char(s, c, i + 1)
    } else {
        i
    }
}

/// The name that one entry of an exclusion list stands for: the entry
/// trimmed and without at-signs before it.
pub open spec fn bare_name(entry: Seq<char>) -> Seq<char> {
    let t = trimmed(entry);
    t.subrange(skip_char(t, '@', 0), t.len() as int)
}

/// The names that a response excludes. An empty response excludes none;
/// any other is a comma-separated list of names.
pub open spec fn excluded(response: Seq<char>) -> Seq<Seq<char>> {
    let r = trimmed(response);
    if r.len() == 0 {
        Seq::empty()
    } else {
        let parts = pieces(r, ',');
        Seq::new(parts.len(), |i: int| bare_name(parts[i]))
    }
}

/// Those of the first `n` names that are not among `dropped`, in order.
pub open spec fn kept(names: Seq<Seq<char>>, dropped: Seq<Seq<char>>, n: nat) -> Seq<Seq<char>>
    decreases n,
{
    if n == 0 {
        Seq::empty()
    } else if dropped.contains(names[n - 1]) {
        kept(names, dropped, (n - 1) as nat)
    } else {
        kept(names, dropped, (n - 1) as nat).push(names[n - 1])
    }
}

/// The candidates as they are shown: each with its at-sign, separated by
/// commas.
pub open spec fn listing(names: Seq<Seq<char>>) -> Seq<char> {
    joined(Seq::new(names.len(), |i: int| "@"@ + names[i]), ", "@)
}

/// The label under which the type of a parameter is asked for.
pub open spec fn type_label(name: Seq<char>) -> Seq<char> {
    "$"@ + name + ": "@
}

/// What the dialogue asks next.
#[derive(Clone, Debug)]
pub enum Request {
    /// The candidates are shown, and a list of those to drop is asked for.
    Exclusions(String),
    /// The type of one parameter is asked for, under the given label.
    TypeOf(String),
    /// Nothing is left to ask.
    Nothing,
}

/// A request as contracts see it.
pub enum RequestView {
    Exclusions(Seq<char>),
    TypeOf(Seq<char>),
    Nothing,
}

impl View for Request {
    type V = RequestView;

    open spec fn view(&self) -> RequestView {
        match self {
            Request::Exclusions(s) => RequestView::Exclusions(s@),
            Request::TypeOf(s) => RequestView::TypeOf(s@),
            Request::Nothing => RequestView::Nothing,
        }
    }
}

/// The state of the dialogue: the names still in play, the types given so
/// far, one for each of the first names, and whether the exclusions have been
/// asked for.
#[derive(Clone, Debug)]
pub struct Negotiation {
    pub names: Vec<String>,
    pub types: Vec<String>,
    pub screened: bool,
}

/// The state of the dialogue as contracts see it.
pub struct NegotiationView {
    pub names: Seq<Seq<char>>,
    pub types: Seq<Seq<char>>,
    pub screened: bool,
}

impl View for Negotiation {
    type V = NegotiationView;

    open spec fn view(&self) -> NegotiationView {
        NegotiationView {
            names: self.names.deep_view(),
            types: self.types.deep_view(),
            screened: self.screened,
        }
    }
}

impl NegotiationView {
    /// No type is given before the exclusions, and never more types than
    /// names.
    pub open spec fn wf(self) -> bool {
        &&& self.types.len() <= self.names.len()
        &&& !self.screened ==> self.types.len() == 0
    }

    /// Whether every name that is left has its type.
    pub open spec fn finished(self) -> bool {
        self.screened && self.types.len() >= self.names.len()
    }

    /// What is asked in this state.
    pub open spec fn request(self) -> RequestView {
        if !self.screened {
            RequestView::Exclusions(listing(self.names))
        } else if self.types.len() < self.names.len() {
            RequestView::TypeOf(type_label(self.names[self.types.len() as int]))
        } else {
            RequestView::Nothing
        }
    }

    /// The state after the answer `line` to the request of this state. The
    /// first answer drops the names it lists; each later one, trimmed, is the
    /// type of the next name, whatever it holds. Once finished, the state
    /// stays as it is.
    pub open spec fn answered(self, line: Seq<char>) -> NegotiationView {
        if !self.screened {
            NegotiationView {
                names: kept(self.names, excluded(line), self.names.len()),
                types: Seq::empty(),
                screened: true,
            }
        } else if self.types.len() < self.names.len() {
            NegotiationView {
                names: self.names,
                types: self.types.push(trimmed(line)),
                screened: true,
            }
        } else {
            self
        }
    }

    /// The names that have their type, each with it.
    pub open spec fn parameters(self) -> Seq<ParameterView> {
        Seq::new(
            self.types.len(),
            |i: int| ParameterView { name: self.names[i], dtype: self.types[i] },
        )
    }
}

/// No more names are kept than there were.
pub proof fn lemma_kept_len(names: Seq<Seq<char>>, dropped: Seq<Seq<char>>, n: nat)
    ensures
        kept(names, dropped, n).len() <= n,
    decreases n,
{
    if n > 0 {
        lemma_kept_len(names, dropped, (n - 1) as nat);
    }
}

/// Reads the name out of one entry of an exclusion list.
pub fn strip_sigil(entry: &str) -> (out: &str)
    ensures
        out@ == bare_name(entry@),
{
    let t = trim(entry);
    let n = t.unicode_len();
    let mut i: usize = 0;
    while i < n && t.get_char(i) == '@'
        invariant
            i <= n == t@.len(),
            skip_char(t@, '@', i as int) == skip_char(t@, '@', 0),
        decreases n - i,
    {
        i += 1;
    }
    t.substring_char(i, n)
}

/// Reads the names that a response excludes.
pub fn exclusions(response: &str) -> (out: Vec<String>)
    ensures
        out.deep_view() == excluded(response@),
{
    let r = trim(response);
    let mut out: Vec<String> = Vec::new();
    if r.unicode_len() == 0 {
        assert(out.deep_view() =~= Seq::empty());
        return out;
    }
    let parts = split(r, ',');
    let n = parts.len();
    let mut i: usize = 0;
    while i < n
        invariant
            i <= n == parts.len(),
            out.len() == i,
            forall|k: int| 0 <= k < i ==> (#[trigger] out[k])@ == bare_name(parts[k]@),
        decreases n - i,
    {
        out.push(String::from_str(strip_sigil(parts[i].as_str())));
        i += 1;
    }
    assert(out.deep_view() =~= excluded(response@));
    out
}

/// Keeps the names that are not among `dropped`, in their order.
pub fn without(names: &Vec<String>, dropped: &Vec<String>) -> (out: Vec<String>)
    ensures
        out.deep_view() == kept(names.deep_view(), dropped.deep_view(), names.len() as nat),
{
    let mut out: Vec<String> = Vec::new();
    let n = names.len();
    let mut i: usize = 0;
    assert(out.deep_view() =~= Seq::empty());
    while i < n
        invariant
            i <= n == names.len(),
            out.deep_view() == kept(names.deep_view(), dropped.deep_view(), i as nat),
        decreases n - i,
    {
        assert(names.deep_view()[i as int] == names[i as int]@);
        if !holds(dropped, names[i].as_str()) {
            let ghost before = out.deep_view();
            out.push(names[i].clone());
            assert(out.deep_view() =~= before.push(names[i as int]@));
        }
        i += 1;
    }
    out
}

/// Writes the candidates as they are shown.
pub fn list_candidates(names: &Vec<String>) -> (out: String)
    ensures
        out@ == listing(names.deep_view()),
{
    let mut shown: Vec<String> = Vec::new();
    let n = names.len();
    let mut i: usize = 0;
    while i < n
        invariant
            i <= n == names.len(),
            shown.len() == i,
            forall|k: int| 0 <= k < i ==> (#[trigger] shown[k])@ == "@"@ + names[k]@,
        decreases n - i,
    {
        let mut s = String::from_str("@");
        s.append(names[i].as_str());
        shown.push(s);
        i += 1;
    }
    assert(shown.deep_view() =~= Seq::new(
        names.deep_view().len(),
        |i: int| "@"@ + names.deep_view()[i],
    ));
    join(&shown, ", ")
}

/// Writes the label under which the type of a parameter is asked for.
pub fn label(name: &str) -> (out: String)
    ensures
        out@ == type_label(name@),
{
    let mut out = String::from_str("$");
    out.append(name);
    out.append(": ");
    out
}

impl Negotiation {
    /// Opens the dialogue on a list of candidates.
    pub fn new(candidates: Vec<String>) -> (state: Negotiation)
        ensures
            state@ == (NegotiationView {
                names: candidates.deep_view(),
                types: Seq::empty(),
                screened: false,
            }),
            state@.wf(),
    {
        let state = Negotiation { names: candidates, types: Vec::new(), screened: false };
        assert(state.types.deep_view() =~= Seq::empty());
        state
    }

    /// What is to be asked next.
    pub fn request(&self) -> (r: Request)
        ensures
            r@ == self@.request(),
    {
        if !self.screened {
            Request::Exclusions(list_candidates(&self.names))
        } else if self.types.len() < self.names.len() {
            let name = self.names[self.types.len()].as_str();
            assert(name@ == self@.names[self@.types.len() as int]);
            Request::TypeOf(label(name))
        } else {
            Request::Nothing
        }
    }

    /// Whether every name that is left has its type.
    pub fn is_finished(&self) -> (done: bool)
        ensures
            done == self@.finished(),
    {
        self.screened && self.types.len() >= self.names.len()
    }

    /// Takes the answer to the last request.
    pub fn answer(&mut self, line: &str)
        ensures
            final(self)@ == old(self)@.answered(line@),
            old(self)@.wf() ==> final(self)@.wf(),
    {
        if !self.screened {
            let dropped = exclusions(line);
            proof {
                lemma_kept_len(self.names.deep_view(), dropped.deep_view(), self.names.len() as nat);
            }
            let left = without(&self.names, &dropped);
            self.names = left;
            self.types = Vec::new();
            self.screened = true;
            assert(self.types.deep_view() =~= Seq::empty());
        } else if self.types.len() < self.names.len() {
            let ghost before = self.types.deep_view();
            self.types.push(String::from_str(trim(line)));
            assert(self.types.deep_view() =~= before.push(trimmed(line@)));
        }
    }

    /// The names that have their type, each with it.
    pub fn parameters(&self) -> (out: Vec<Parameter>)
        requires
            self@.wf(),
        ensures
            views(out@) == self@.parameters(),
    {
        let mut out: Vec<Parameter> = Vec::new();
        let n = self.types.len();
        let mut i: usize = 0;
        while i < n
            invariant
                i <= n == self.types.len(),
                n <= self.names.len(),
                out.len() == i,
                forall|k: int|
                    0 <= k < i ==> (#[trigger] out[k])@ == (ParameterView {
                        name: self.names[k]@,
                        dtype: self.types[k]@,
                    }),
            decreases n - i,
        {
            out.push(Parameter { name: self.names[i].clone(), dtype: self.types[i].clone() });
            i += 1;
        }
        assert(views(out@) =~= self@.parameters());
        out
    }
}

} // verus!
