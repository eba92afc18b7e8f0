//! Inference of a template's parameters: the variables that its tags refer
//! to, without those that a loop binds anywhere in the document.

use crate::order::{ascending, holds, NameSet};
use crate::rules::SIGIL_PATTERN;
use crate::search::{group, group_text, search, searched, Groups};
use crate::text::{pieces, split, trim, trimmed};
use vstd::prelude::*;
use vstd::string::*;

verus! {

/// A tag with its content as first group. The content may span lines.
pub const BODY_PATTERN: &'static str = r"<%[\-=]?\s*([\s\S]*?)%>";

/// The argument list of a loop, in block form or in brace form.
pub const BINDING_PATTERN: &'static str =
    r"each\s+(?:do\s+)?\|\s*([a-zA-Z_]\w*(?:\s*,\s*[a-zA-Z_]\w*)*)\s*\|";

/// The first capture group of each match.
pub open spec fn firsts(found: Seq<Groups>) -> Seq<Seq<char>> {
    Seq::new(found.len(), |i: int| group(found[i], 1))
}

/// The names of a comma-separated list, each trimmed.
pub open spec fn names_of(list: Seq<char>) -> Seq<Seq<char>> {
    let parts = pieces(list, ',');
    Seq::new(parts.len(), |i: int| trimmed(parts[i]))
}

/// The names of the first `n` lists, in order.
pub open spec fn listed(lists: Seq<Seq<char>>, n: nat) -> Seq<Seq<char>>
    decreases n,
{
    if n == 0 {
        Seq::empty()
    } else {
        listed(lists, (n - 1) as nat) + names_of(lists[n - 1])
    }
}

/// The variables that the content of one tag refers to, by name and in
/// order, each as often as it occurs.
pub open spec fn referenced_in(body: Seq<char>) -> Seq<Seq<char>> {
    firsts(searched(SIGIL_PATTERN@, body).found)
}

/// The names that the loops in the content of one tag bind.
pub open spec fn bound_in(body: Seq<char>) -> Seq<Seq<char>> {
    let lists = firsts(searched(BINDING_PATTERN@, body).found);
    listed(lists, lists.len())
}

/// The variables that the first `n` tag contents refer to.
pub open spec fn referenced_upto(bodies: Seq<Seq<char>>, n: nat) -> Seq<Seq<char>>
    decreases n,
{
    if n == 0 {
        Seq::empty()
    } else {
        referenced_upto(bodies, (n - 1) as nat) + referenced_in(bodies[n - 1])
    }
}

/// The names that the loops in the first `n` tag contents bind.
pub open spec fn bound_upto(bodies: Seq<Seq<char>>, n: nat) -> Seq<Seq<char>>
    decreases n,
{
    if n == 0 {
        Seq::empty()
    } else {
        bound_upto(bodies, (n - 1) as nat) + bound_in(bodies[n - 1])
    }
}

/// The content of each tag of a document.
pub open spec fn bodies_of(input: Seq<char>) -> Seq<Seq<char>> {
    firsts(searched(BODY_PATTERN@, input).found)
}

/// Every variable that a tag of the document refers to.
pub open spec fn referenced(input: Seq<char>) -> Seq<Seq<char>> {
    referenced_upto(bodies_of(input), bodies_of(input).len())
}

/// Every name that a loop binds in a tag of the document.
pub open spec fn bound(input: Seq<char>) -> Seq<Seq<char>> {
    bound_upto(bodies_of(input), bodies_of(input).len())
}

/// Whether `name` is a parameter candidate: referred to, and bound by no
/// loop.
pub open spec fn is_candidate(
    name: Seq<char>,
    referenced: Seq<Seq<char>>,
    bound: Seq<Seq<char>>,
) -> bool {
    referenced.contains(name) && !bound.contains(name)
}

/// Reads the first capture group out of each match.
pub fn first_groups(found: &Vec<Vec<Option<String>>>) -> (out: Vec<String>)
    ensures
        out.deep_view() == firsts(found.deep_view()),
{
    let mut out: Vec<String> = Vec::new();
    let n = found.len();
    let mut i: usize = 0;
    while i < n
        invariant
            i <= n == found.len(),
            out.len() == i,
            forall|k: int| 0 <= k < i ==> (#[trigger] out[k])@ == group(found[k].deep_view(), 1),
        decreases n - i,
    {
        out.push(String::from_str(group_text(&found[i], 1)));
        i += 1;
    }
    assert(out.deep_view() =~= firsts(found.deep_view()));
    out
}

/// Reads the names out of a comma-separated list.
pub fn list_names(list: &str) -> (out: Vec<String>)
    ensures
        out.deep_view() == names_of(list@),
{
    let parts = split(list, ',');
    let mut out: Vec<String> = Vec::new();
    let n = parts.len();
    let mut i: usize = 0;
    while i < n
        invariant
            i <= n == parts.len(),
            out.len() == i,
            forall|k: int| 0 <= k < i ==> (#[trigger] out[k])@ == trimmed(parts[k]@),
        decreases n - i,
    {
        out.push(String::from_str(trim(parts[i].as_str())));
        i += 1;
    }
    assert(out.deep_view() =~= names_of(list@));
    out
}

/// Reads the names out of each list in turn.
pub fn all_names(lists: &Vec<String>) -> (out: Vec<String>)
    ensures
        out.deep_view() == listed(lists.deep_view(), lists.len() as nat),
{
    let mut out: Vec<String> = Vec::new();
    let n = lists.len();
    let mut i: usize = 0;
    assert(out.deep_view() =~= Seq::empty());
    while i < n
        invariant
            i <= n == lists.len(),
            out.deep_view() == listed(lists.deep_view(), i as nat),
        decreases n - i,
    {
        let mut names = list_names(lists[i].as_str());
        let ghost before = out.deep_view();
        let ghost added = names.deep_view();
        out.append(&mut names);
        assert(out.deep_view() =~= before + added);
        i += 1;
    }
    out
}

/// The variables that the content of one tag refers to.
pub fn names_referenced(body: &str) -> (out: Vec<String>)
    ensures
        out.deep_view() == referenced_in(body@),
{
    let scan = search(SIGIL_PATTERN, body);
    first_groups(&scan.found)
}

/// The names that the loops in the content of one tag bind.
pub fn names_bound(body: &str) -> (out: Vec<String>)
    ensures
        out.deep_view() == bound_in(body@),
{
    let scan = search(BINDING_PATTERN, body);
    let lists = first_groups(&scan.found);
    all_names(&lists)
}

/// The parameter candidates: each referred name that no loop binds, once,
/// in ascending order.
pub fn candidates(referenced: &Vec<String>, bound: &Vec<String>) -> (out: Vec<String>)
    ensures
        ascending(out.deep_view()),
        forall|name: Seq<char>|
            out.deep_view().contains(name) <==> is_candidate(
                name,
                referenced.deep_view(),
                bound.deep_view(),
            ),
{
    let ghost refs = referenced.deep_view();
    let mut out = NameSet::new();
    let n = referenced.len();
    let mut i: usize = 0;
    while i < n
        invariant
            i <= n == referenced.len(),
            refs == referenced.deep_view(),
            out.wf(),
            forall|name: Seq<char>|
                out.contains(name) <==> is_candidate(name, refs.take(i as int), bound.deep_view()),
        decreases n - i,
    {
        let ghost this = refs[i as int];
        assert(this == referenced[i as int]@);
        if !holds(bound, referenced[i].as_str()) {
            out.insert(referenced[i].clone());
        }
        proof {
            assert(refs.take(i + 1) =~= refs.take(i as int).push(this));
            assert forall|name: Seq<char>|
                refs.take(i + 1).contains(name) <==> (refs.take(i as int).contains(name) || name
                    == this) by {
                if refs.take(i as int).contains(name) {
                    let k = choose|k: int|
                        0 <= k < refs.take(i as int).len() && refs.take(i as int)[k] == name;
                    assert(refs.take(i + 1)[k] == name);
                }
                if name == this {
                    assert(refs.take(i + 1)[i as int] == name);
                }
            }
        }
        i += 1;
    }
    assert(refs.take(n as int) =~= refs);
    let ghost set = out;
    let names = out.into_names();
    assert forall|name: Seq<char>|
        names.deep_view().contains(name) <==> is_candidate(name, refs, bound.deep_view()) by {
        assert(names.deep_view().contains(name) == set.contains(name));
    }
    names
}

/// The parameter candidates of a document: every variable that a tag refers
/// to and that no loop binds in any tag, once, in ascending order.
pub fn extract_template_parameters(input: &str) -> (out: Vec<String>)
    ensures
        ascending(out.deep_view()),
        forall|name: Seq<char>|
            out.deep_view().contains(name) <==> is_candidate(
                name,
                referenced(input@),
                bound(input@),
            ),
{
    let scan = search(BODY_PATTERN, input);
    let bodies = first_groups(&scan.found);
    let mut all_referenced: Vec<String> = Vec::new();
    let mut all_bound: Vec<String> = Vec::new();
    let n = bodies.len();
    let mut i: usize = 0;
    assert(all_referenced.deep_view() =~= Seq::empty());
    assert(all_bound.deep_view() =~= Seq::empty());
    while i < n
        invariant
            i <= n == bodies.len(),
            bodies.deep_view() == bodies_of(input@),
            all_referenced.deep_view() == referenced_upto(bodies.deep_view(), i as nat),
            all_bound.deep_view() == bound_upto(bodies.deep_view(), i as nat),
        decreases n - i,
    {
        let body = bodies[i].as_str();
        assert(body@ == bodies.deep_view()[i as int]);
        let mut names = names_referenced(body);
        let ghost before = all_referenced.deep_view();
        let ghost added = names.deep_view();
        all_referenced.append(&mut names);
        assert(all_referenced.deep_view() =~= before + added);
        let mut names = names_bound(body);
        let ghost before = all_bound.deep_view();
        let ghost added = names.deep_view();
        all_bound.append(&mut names);
        assert(all_bound.deep_view() =~= before + added);
        i += 1;
    }
    candidates(&all_referenced, &all_bound)
}

} // verus!
