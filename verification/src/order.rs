//! The order in which names are listed: by the code points of their
//! characters, the shorter of two names first where one begins the other.
//! This is the order in which `str` values compare.

use vstd::prelude::*;
use vstd::string::*;

verus! {

/// Whether `a` comes strictly before `b`.
pub open spec fn precedes(a: Seq<char>, b: Seq<char>) -> bool
    decreases a.len(),
{
    if b.len() == 0 {
        false
    } else if a.len() == 0 {
        true
    } else if a[0] != b[0] {
        (a[0] as u32) < (b[0] as u32)
    } else {
        precedes(a.drop_first(), b.drop_first())
    }
}

/// Whether each name comes strictly before all that follow it. Such a list
/// holds no name twice.
pub open spec fn ascending(names: Seq<Seq<char>>) -> bool {
    forall|i: int, j: int| 0 <= i < j < names.len() ==> precedes(names[i], names[j])
}

/// No name comes before itself.
pub proof fn lemma_precedes_irreflexive(a: Seq<char>)
    ensures
        !precedes(a, a),
    decreases a.len(),
{
    if a.len() > 0 {
        lemma_precedes_irreflexive(a.drop_first());
    }
}

/// Of two different names one comes before the other.
pub proof fn lemma_precedes_total(a: Seq<char>, b: Seq<char>)
    ensures
        a == b || precedes(a, b) || precedes(b, a),
    decreases a.len(),
{
    if a.len() == 0 || b.len() == 0 {
        if a.len() == 0 && b.len() == 0 {
            assert(a =~= b);
        }
    } else if a[0] == b[0] {
        lemma_precedes_total(a.drop_first(), b.drop_first());
        if a.drop_first() == b.drop_first() {
            assert(a =~= seq![a[0]] + a.drop_first());
            assert(b =~= seq![b[0]] + b.drop_first());
        }
    } else {
        vstd::utf8::char_u32_cast(a[0], a[0] as u32);
        vstd::utf8::char_u32_cast(b[0], b[0] as u32);
    }
}

/// What comes before a name comes before all that the name comes before.
pub proof fn lemma_precedes_transitive(a: Seq<char>, b: Seq<char>, c: Seq<char>)
    requires
        precedes(a, b),
        precedes(b, c),
    ensures
        precedes(a, c),
    decreases a.len(),
{
    if a.len() > 0 && a[0] == b[0] && b[0] == c[0] {
        lemma_precedes_transitive(a.drop_first(), b.drop_first(), c.drop_first());
    }
}

/// Whether `a` comes strictly before `b`.
pub fn is_before(a: &str, b: &str) -> (r: bool)
    ensures
        r == precedes(a@, b@),
{
    let n = a.unicode_len();
    let m = b.unicode_len();
    let mut i: usize = 0;
    assert(a@.skip(0) =~= a@ && b@.skip(0) =~= b@);
    while i < n && i < m
        invariant
            i <= n == a@.len(),
            i <= m == b@.len(),
            precedes(a@, b@) == precedes(a@.skip(i as int), b@.skip(i as int)),
        decreases n - i,
    {
        let x = a.get_char(i);
        let y = b.get_char(i);
        if x != y {
            return (x as u32) < (y as u32);
        }
        assert(a@.skip(i as int).drop_first() =~= a@.skip(i + 1));
        assert(b@.skip(i as int).drop_first() =~= b@.skip(i + 1));
        i += 1;
    }
    i < m
}

/// Whether `a` and `b` hold the same characters.
pub fn same(a: &str, b: &str) -> (r: bool)
    ensures
        r == (a@ == b@),
{
    proof {
        lemma_precedes_total(a@, b@);
        lemma_precedes_irreflexive(a@);
    }
    !is_before(a, b) && !is_before(b, a)
}

/// Whether `name` is among `names`.
pub fn holds(names: &Vec<String>, name: &str) -> (r: bool)
    ensures
        r == names.deep_view().contains(name@),
{
    let n = names.len();
    let mut i: usize = 0;
    while i < n
        invariant
            i <= n == names.len(),
            forall|k: int| 0 <= k < i ==> names.deep_view()[k] != name@,
        decreases n - i,
    {
        assert(names.deep_view()[i as int] == names[i as int]@);
        if same(names[i].as_str(), name) {
            return true;
        }
        i += 1;
    }
    false
}

/// A set of names, held as a list in ascending order.
#[derive(Clone, Debug)]
pub struct NameSet {
    pub names: Vec<String>,
}

impl NameSet {
    /// The names stand in ascending order, so that none stands twice.
    pub open spec fn wf(&self) -> bool {
        ascending(self.names.deep_view())
    }

    /// Whether the set holds `name`.
    pub open spec fn contains(&self, name: Seq<char>) -> bool {
        self.names.deep_view().contains(name)
    }

    /// The empty set.
    pub fn new() -> (set: NameSet)
        ensures
            set.wf(),
            set.names.deep_view() == Seq::<Seq<char>>::empty(),
    {
        let set = NameSet { names: Vec::new() };
        assert(set.names.deep_view() =~= Seq::empty());
        set
    }

    /// Adds `name` to the set, which may hold it already.
    pub fn insert(&mut self, name: String)
        requires
            old(self).wf(),
        ensures
            final(self).wf(),
            forall|x: Seq<char>| final(self).contains(x) <==> (old(self).contains(x) || x == name@),
    {
        let ghost before = self.names.deep_view();
        let n = self.names.len();
        let mut p: usize = 0;
        while p < n && is_before(self.names[p].as_str(), name.as_str())
            invariant
                p <= n == self.names.len(),
                self.names.deep_view() == before,
                forall|k: int| 0 <= k < p ==> precedes(before[k], name@),
            decreases n - p,
        {
            assert(before[p as int] == self.names[p as int]@);
            p += 1;
        }
        if p < n && !is_before(name.as_str(), self.names[p].as_str()) {
            proof {
                assert(before[p as int] == self.names[p as int]@);
                lemma_precedes_total(before[p as int], name@);
                assert(before.contains(name@));
            }
        } else {
            self.names.insert(p, name);
            proof {
                let after = self.names.deep_view();
                assert(after =~= before.insert(p as int, name@));
                assert forall|i: int, j: int| 0 <= i < j < after.len() implies precedes(
                    after[i],
                    after[j],
                ) by {
                    if i == p && j > p + 1 {
                        lemma_precedes_transitive(name@, before[p as int], before[j - 1]);
                    }
                }
                assert forall|x: Seq<char>| after.contains(x) <==> (before.contains(x) || x
                    == name@) by {
                    if after.contains(x) {
                        let k = choose|k: int| 0 <= k < after.len() && after[k] == x;
                        if k < p {
                            assert(before[k] == x);
                        } else if k > p {
                            assert(before[k - 1] == x);
                        }
                    }
                    if before.contains(x) {
                        let k = choose|k: int| 0 <= k < before.len() && before[k] == x;
                        if k < p {
                            assert(after[k] == x);
                        } else {
                            assert(after[k + 1] == x);
                        }
                    }
                    if x == name@ {
                        assert(after[p as int] == x);
                    }
                }
            }
        }
    }

    /// The names of the set, in ascending order.
    pub fn into_names(self) -> (names: Vec<String>)
        ensures
            names == self.names,
    {
        self.names
    }
}

} // verus!
