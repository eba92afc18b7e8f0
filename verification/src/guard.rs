//! Synthesis of the existence guard that replaces a loop over an optional
//! collection, `(<path> || {}).each`, by a test that every key of the path is
//! present and that the collection is an array.

use crate::text::{join, joined, prefix_before, take_before, trim, trimmed};
use vstd::prelude::*;
use vstd::string::*;

verus! {

/// `root` followed by an access to each of the first `n` keys.
pub open spec fn key_path(root: Seq<char>, keys: Seq<Seq<char>>, n: nat) -> Seq<char>
    decreases n,
{
    if n == 0 {
        root
    } else {
        key_path(root, keys, (n - 1) as nat) + "['"@ + keys[n - 1] + "']"@
    }
}

/// The test that `key` is present in the collection at `path`.
pub open spec fn membership_check(key: Seq<char>, path: Seq<char>) -> Seq<char> {
    "('"@ + key + "' in "@ + path + ")"@
}

/// The test that the value at `path` is an array.
pub open spec fn array_check(path: Seq<char>) -> Seq<char> {
    "("@ + path + " =~ Array)"@
}

/// The membership tests of the first `n` keys, each against the path made of
/// the keys before it.
pub open spec fn member_checks(root: Seq<char>, keys: Seq<Seq<char>>, n: nat) -> Seq<Seq<char>> {
    Seq::new(n, |i: int| membership_check(keys[i], key_path(root, keys, i as nat)))
}

/// Every test of the guard: one membership test per key, then the array test
/// on the full path. Without keys there is nothing to test.
pub open spec fn guard_checks(root: Seq<char>, keys: Seq<Seq<char>>) -> Seq<Seq<char>> {
    if keys.len() == 0 {
        Seq::empty()
    } else {
        member_checks(root, keys, keys.len()).push(array_check(key_path(root, keys, keys.len())))
    }
}

/// The guard's condition: the tests joined by `and`. A path without keys has
/// no test, and its guard is the constant `true`.
pub open spec fn guard_condition(root: Seq<char>, keys: Seq<Seq<char>>) -> Seq<char> {
    if keys.len() == 0 {
        "true"@
    } else {
        joined(guard_checks(root, keys), " and "@)
    }
}

/// The root variable of a path expression: what precedes its first bracket,
/// trimmed.
pub open spec fn root_of(path: Seq<char>) -> Seq<char> {
    trimmed(prefix_before(path, '['))
}

/// The guard tag, which always trims on both sides, and below it the loop tag
/// over the full path, which keeps the trim markers `open` and `close` of the
/// tag it replaces.
pub open spec fn guarded_loop(
    open: Seq<char>,
    root: Seq<char>,
    keys: Seq<Seq<char>>,
    args: Seq<char>,
    close: Seq<char>,
) -> Seq<char> {
    "<%- if "@ + guard_condition(root, keys) + " { -%>\n<%"@ + open + " "@ + key_path(
        root,
        keys,
        keys.len(),
    ) + ".each | "@ + trimmed(args) + " | { "@ + close + "%>"@
}

/// The root variable of a path expression.
pub fn root_variable(path: &str) -> (out: &str)
    ensures
        out@ == root_of(path@),
{
    trim(take_before(path, '['))
}

/// Builds the guard's condition and the full path for `root` and `keys`.
pub fn guard_parts(root: &str, keys: &Vec<String>) -> (out: (String, String))
    ensures
        out.0@ == guard_condition(root@, keys.deep_view()),
        out.1@ == key_path(root@, keys.deep_view(), keys.len() as nat),
{
    let ghost ks = keys.deep_view();
    let n = keys.len();
    let mut path = String::from_str(root);
    let mut checks: Vec<String> = Vec::new();
    let mut i: usize = 0;
    assert(checks.deep_view() =~= member_checks(root@, ks, 0));
    while i < n
        invariant
            i <= n == keys.len(),
            ks == keys.deep_view(),
            path@ == key_path(root@, ks, i as nat),
            checks.deep_view() == member_checks(root@, ks, i as nat),
        decreases n - i,
    {
        let key = keys[i].as_str();
        assert(key@ == ks[i as int]);
        let mut check = String::from_str("('");
        check.append(key);
        check.append("' in ");
        check.append(path.as_str());
        check.append(")");
        let ghost before = checks.deep_view();
        checks.push(check);
        assert(checks.deep_view() =~= before.push(membership_check(ks[i as int], path@)));
        assert(checks.deep_view() =~= member_checks(root@, ks, (i + 1) as nat));
        path.append("['");
        path.append(key);
        path.append("']");
        i += 1;
    }
    if n == 0 {
        (String::from_str("true"), path)
    } else {
        let mut check = String::from_str("(");
        check.append(path.as_str());
        check.append(" =~ Array)");
        let ghost before = checks.deep_view();
        checks.push(check);
        assert(checks.deep_view() =~= before.push(array_check(path@)));
        let condition = join(&checks, " and ");
        (condition, path)
    }
}

/// Replaces a loop over an optional collection by its guard and the loop
/// over the full path.
pub fn guard_loop(open: &str, root: &str, keys: &Vec<String>, args: &str, close: &str) -> (out:
    String)
    ensures
        out@ == guarded_loop(open@, root@, keys.deep_view(), args@, close@),
{
    let (condition, path) = guard_parts(root, keys);
    let mut out = String::from_str("<%- if ");
    out.append(condition.as_str());
    out.append(" { -%>\n<%");
    out.append(open);
    out.append(" ");
    out.append(path.as_str());
    out.append(".each | ");
    out.append(trim(args));
    out.append(" | { ");
    out.append(close);
    out.append("%>");
    out
}

} // verus!
