//! The rewrite rules: for each kind of directive the pattern that finds it
//! and the text that takes its place.

use crate::guard::{guard_loop, guarded_loop, root_of, root_variable};
use crate::search::{group, group_text, search, searched, whole, Groups};
use crate::text::{join, joined, pieces, split, trim, trimmed};
use vstd::prelude::*;
use vstd::string::*;

verus! {

/// A variable reference: an at-sign and an identifier.
pub const SIGIL_PATTERN: &'static str = r"@([a-zA-Z_]\w*)";

/// An `if` directive with its condition.
pub const IF_PATTERN: &'static str =
    r"<%(?P<open_dash>-?)\s*if\s+(?P<cond>.*?)\s*(?P<close_dash>-?)%>";

/// An `end` directive.
pub const END_PATTERN: &'static str = r"<%(?P<open_dash>-?)\s*end\s*(?P<close_dash>-?)%>";

/// An `elsif` directive with its condition.
pub const ELSIF_PATTERN: &'static str =
    r"<%(?P<open_dash>-?)\s*elsif\s+(?P<cond>.*?)\s*(?P<close_dash>-?)%>";

/// An `else` directive.
pub const ELSE_PATTERN: &'static str = r"<%(?P<open_dash>-?)\s*else\s*(?P<close_dash>-?)%>";

/// A loop in block form: `<collection>.each do |<args>|`.
pub const EACH_DO_PATTERN: &'static str =
    r"<%(?P<open_dash>-?)\s*\s+(?P<cond>.*?)\.each\s+do\s+\|\s*(?P<each_args>.*?)\s*\|\s*(?P<close_dash>-?)%>";

/// The argument list of a loop: identifiers between pipes.
pub const LOOP_ARGS_PATTERN: &'static str = r"\|\s*([a-zA-Z_]\w*(?:\s*,\s*[a-zA-Z_]\w*)*)\s*\|";

/// An output tag that holds one bare expression: a name followed by key and
/// member accesses.
pub const BARE_OUTPUT_PATTERN: &'static str =
    r"<%=\s*(?P<expr>\w+(?:\[[^\]]+\]|\.\w+)*)\s*(?P<close_dash>-?)%>";

/// A loop in brace form over an optional collection: `(<path> || {}).each`.
pub const GUARD_LOOP_PATTERN: &'static str =
    r"<%(?P<open_dash>-?)\s*\(\s*(?P<cond>\$[^\)]+?)\s*\|\|\s*\{\}\s*\)\.each\s+\|\s*(?P<each_args>[^|]+?)\s*\|\s*\{\s*(?P<close_dash>-?)%>";

/// A tag that holds nothing but a closing brace.
pub const LOOP_END_PATTERN: &'static str =
    r"(?m)(<%(?P<open_dash>-?)\s*\}\s*(?P<close_dash>-?)%>)";

/// The prefix of a call into the legacy function scope.
pub const LEGACY_CALL_PATTERN: &'static str = r"\bscope\.function_";

/// A call of `versioncmp` whose arguments stand in an array literal.
pub const VERSIONCMP_PATTERN: &'static str = r"(versioncmp\s*\()\s*\[\s*(.*?)\s*\]\s*(\))";

/// One quoted key access of a path expression, in single or double quotes.
pub const KEY_PATTERN: &'static str = r#"\[(?:'(.*?)'|"(.*?)")\]"#;

/// The kinds of directive that are rewritten, in the order in which a tag is
/// put through them.
#[derive(Clone, Copy, Debug)]
pub enum Rule {
    Sigil,
    If,
    End,
    Elsif,
    Else,
    EachDo,
    LoopArgs,
    BareOutput,
    GuardLoop,
    LoopEnd,
    LegacyCall,
    Versioncmp,
}

/// The pattern that finds the directives of a rule.
pub open spec fn pattern(rule: Rule) -> Seq<char> {
    match rule {
        Rule::Sigil => SIGIL_PATTERN@,
        Rule::If => IF_PATTERN@,
        Rule::End => END_PATTERN@,
        Rule::Elsif => ELSIF_PATTERN@,
        Rule::Else => ELSE_PATTERN@,
        Rule::EachDo => EACH_DO_PATTERN@,
        Rule::LoopArgs => LOOP_ARGS_PATTERN@,
        Rule::BareOutput => BARE_OUTPUT_PATTERN@,
        Rule::GuardLoop => GUARD_LOOP_PATTERN@,
        Rule::LoopEnd => LOOP_END_PATTERN@,
        Rule::LegacyCall => LEGACY_CALL_PATTERN@,
        Rule::Versioncmp => VERSIONCMP_PATTERN@,
    }
}

/// The pattern that finds the directives of a rule.
pub fn pattern_of(rule: Rule) -> (p: &'static str)
    ensures
        p@ == pattern(rule),
{
    match rule {
        Rule::Sigil => SIGIL_PATTERN,
        Rule::If => IF_PATTERN,
        Rule::End => END_PATTERN,
        Rule::Elsif => ELSIF_PATTERN,
        Rule::Else => ELSE_PATTERN,
        Rule::EachDo => EACH_DO_PATTERN,
        Rule::LoopArgs => LOOP_ARGS_PATTERN,
        Rule::BareOutput => BARE_OUTPUT_PATTERN,
        Rule::GuardLoop => GUARD_LOOP_PATTERN,
        Rule::LoopEnd => LOOP_END_PATTERN,
        Rule::LegacyCall => LEGACY_CALL_PATTERN,
        Rule::Versioncmp => VERSIONCMP_PATTERN,
    }
}

/// How many guards a document has had synthesized so far, and for how many of
/// them the closing tag has been added. Both counts start at zero with each
/// document.
#[derive(Clone, Copy, Debug)]
pub struct Ledger {
    pub synthesized: usize,
    pub injected: usize,
}

impl Ledger {
    /// Whether a guard still waits for its closing tag.
    pub open spec fn owes_close(self) -> bool {
        self.injected < self.synthesized
    }

    /// The ledger once one more guard is synthesized. The count stays where
    /// it is once it has reached the largest `usize`.
    pub open spec fn guard_added(self) -> Ledger {
        if self.synthesized < usize::MAX {
            Ledger { synthesized: (self.synthesized + 1) as usize, injected: self.injected }
        } else {
            self
        }
    }

    /// The ledger once a closing tag was met: one more close is added where
    /// one is owed.
    pub open spec fn close_added(self) -> Ledger {
        if self.owes_close() {
            Ledger { synthesized: self.synthesized, injected: (self.injected + 1) as usize }
        } else {
            self
        }
    }

    /// The ledger of a document in which nothing was rewritten yet.
    pub fn new() -> (ledger: Ledger)
        ensures
            ledger == (Ledger { synthesized: 0, injected: 0 }),
    {
        Ledger { synthesized: 0, injected: 0 }
    }

    /// Whether a guard still waits for its closing tag.
    pub fn owes(&self) -> (owed: bool)
        ensures
            owed == self.owes_close(),
    {
        self.injected < self.synthesized
    }

    /// Records one more synthesized guard.
    pub fn add_guard(self) -> (ledger: Ledger)
        ensures
            ledger == self.guard_added(),
    {
        if self.synthesized < usize::MAX {
            Ledger { synthesized: self.synthesized + 1, injected: self.injected }
        } else {
            self
        }
    }

    /// Records a closing tag, which takes up one owed close if there is one.
    pub fn add_close(self) -> (ledger: Ledger)
        ensures
            ledger == self.close_added(),
    {
        if self.injected < self.synthesized {
            Ledger { synthesized: self.synthesized, injected: self.injected + 1 }
        } else {
            self
        }
    }
}

/// A variable name in the target dialect.
pub open spec fn sigil_form(name: Seq<char>) -> Seq<char> {
    "$"@ + name
}

/// An `if` directive in brace form.
pub open spec fn if_tag(open: Seq<char>, cond: Seq<char>, close: Seq<char>) -> Seq<char> {
    "<%"@ + open + " if "@ + cond + " { "@ + close + "%>"@
}

/// An `end` directive in brace form.
pub open spec fn end_tag(open: Seq<char>, close: Seq<char>) -> Seq<char> {
    "<%"@ + open + " } "@ + close + "%>"@
}

/// An `elsif` directive in brace form.
pub open spec fn elsif_tag(open: Seq<char>, cond: Seq<char>, close: Seq<char>) -> Seq<char> {
    "<%"@ + open + " } else if "@ + cond + " { "@ + close + "%>"@
}

/// An `else` directive in brace form.
pub open spec fn else_tag(open: Seq<char>, close: Seq<char>) -> Seq<char> {
    "<%"@ + open + " } else { "@ + close + "%>"@
}

/// A block-form loop in brace form.
pub open spec fn each_tag(
    open: Seq<char>,
    collection: Seq<char>,
    args: Seq<char>,
    close: Seq<char>,
) -> Seq<char> {
    "<%"@ + open + " "@ + collection + ".each | "@ + args + " | { "@ + close + "%>"@
}

/// Each name of a list trimmed and given the target sigil.
pub open spec fn sigil_forms(names: Seq<Seq<char>>) -> Seq<Seq<char>> {
    Seq::new(names.len(), |i: int| sigil_form(trimmed(names[i])))
}

/// A loop's argument list with the target sigil before each name.
pub open spec fn loop_args(list: Seq<char>) -> Seq<char> {
    "| "@ + joined(sigil_forms(pieces(list, ',')), ", "@) + " |"@
}

/// An output tag whose bare expression has gained the target sigil. A tag
/// whose expression carries it already stays as it is.
pub open spec fn bare_output(tag: Seq<char>, expr: Seq<char>, close: Seq<char>) -> Seq<char> {
    if expr.len() > 0 && expr[0] == '$' {
        tag
    } else {
        "<%= $"@ + expr + " "@ + close + "%>"@
    }
}

/// A closing tag, followed where `owed` by the closing tag of a guard.
pub open spec fn closed(tag: Seq<char>, owed: bool) -> Seq<char> {
    if owed {
        tag + "\n<%- } -%>"@
    } else {
        tag
    }
}

/// A `versioncmp` call without the brackets around its arguments: the call's
/// opening, the arguments and the closing parenthesis, nothing else.
pub open spec fn unbracketed(opening: Seq<char>, args: Seq<char>, closing: Seq<char>) -> Seq<
    char,
> {
    opening + args + closing
}

/// The key that one match of the key pattern holds.
pub open spec fn key_of(m: Groups) -> Seq<char> {
    if 1 < m.len() && m[1] is Some {
        m[1]->0
    } else {
        group(m, 2)
    }
}

/// The keys that the matches of the key pattern hold, in order.
pub open spec fn keys_of(found: Seq<Groups>) -> Seq<Seq<char>> {
    Seq::new(found.len(), |i: int| key_of(found[i]))
}

/// The quoted keys that a path expression accesses, in order.
pub open spec fn keys_in(path: Seq<char>) -> Seq<Seq<char>> {
    keys_of(searched(KEY_PATTERN@, path).found)
}

/// What a rule puts in the place of the match `m`, and the ledger after it.
pub open spec fn rewritten(rule: Rule, m: Groups, ledger: Ledger) -> (Seq<char>, Ledger) {
    match rule {
        Rule::Sigil => (sigil_form(group(m, 1)), ledger),
        Rule::If => (if_tag(group(m, 1), group(m, 2), group(m, 3)), ledger),
        Rule::End => (end_tag(group(m, 1), group(m, 2)), ledger),
        Rule::Elsif => (elsif_tag(group(m, 1), group(m, 2), group(m, 3)), ledger),
        Rule::Else => (else_tag(group(m, 1), group(m, 2)), ledger),
        Rule::EachDo => (each_tag(group(m, 1), group(m, 2), group(m, 3), group(m, 4)), ledger),
        Rule::LoopArgs => (loop_args(group(m, 1)), ledger),
        Rule::BareOutput => (bare_output(whole(m), group(m, 1), group(m, 2)), ledger),
        Rule::GuardLoop => (
            guarded_loop(
                group(m, 1),
                root_of(group(m, 2)),
                keys_in(group(m, 2)),
                group(m, 3),
                group(m, 4),
            ),
            ledger.guard_added(),
        ),
        Rule::LoopEnd => (closed(whole(m), ledger.owes_close()), ledger.close_added()),
        Rule::LegacyCall => (Seq::empty(), ledger),
        Rule::Versioncmp => (unbracketed(group(m, 1), group(m, 2), group(m, 3)), ledger),
    }
}

/// Gives a variable name the target sigil.
pub fn sigil(name: &str) -> (out: String)
    ensures
        out@ == sigil_form(name@),
{
    let mut out = String::from_str("$");
    out.append(name);
    out
}

/// Writes an `if` directive in brace form.
pub fn if_open(open: &str, cond: &str, close: &str) -> (out: String)
    ensures
        out@ == if_tag(open@, cond@, close@),
{
    let mut out = String::from_str("<%");
    out.append(open);
    out.append(" if ");
    out.append(cond);
    out.append(" { ");
    out.append(close);
    out.append("%>");
    out
}

/// Writes an `end` directive in brace form.
pub fn block_end(open: &str, close: &str) -> (out: String)
    ensures
        out@ == end_tag(open@, close@),
{
    let mut out = String::from_str("<%");
    out.append(open);
    out.append(" } ");
    out.append(close);
    out.append("%>");
    out
}

/// Writes an `elsif` directive in brace form.
pub fn else_if(open: &str, cond: &str, close: &str) -> (out: String)
    ensures
        out@ == elsif_tag(open@, cond@, close@),
{
    let mut out = String::from_str("<%");
    out.append(open);
    out.append(" } else if ");
    out.append(cond);
    out.append(" { ");
    out.append(close);
    out.append("%>");
    out
}

/// Writes an `else` directive in brace form.
pub fn else_open(open: &str, close: &str) -> (out: String)
    ensures
        out@ == else_tag(open@, close@),
{
    let mut out = String::from_str("<%");
    out.append(open);
    out.append(" } else { ");
    out.append(close);
    out.append("%>");
    out
}

/// Writes a block-form loop in brace form.
pub fn each_open(open: &str, collection: &str, args: &str, close: &str) -> (out: String)
    ensures
        out@ == each_tag(open@, collection@, args@, close@),
{
    let mut out = String::from_str("<%");
    out.append(open);
    out.append(" ");
    out.append(collection);
    out.append(".each | ");
    out.append(args);
    out.append(" | { ");
    out.append(close);
    out.append("%>");
    out
}

/// Gives each name of a loop's argument list the target sigil.
pub fn sigil_args(list: &str) -> (out: String)
    ensures
        out@ == loop_args(list@),
{
    let names = split(list, ',');
    let mut forms: Vec<String> = Vec::new();
    let n = names.len();
    let mut i: usize = 0;
    while i < n
        invariant
            i <= n == names.len(),
            forms.len() == i,
            forall|k: int| 0 <= k < i ==> (#[trigger] forms[k])@ == sigil_form(trimmed(names[k]@)),
        decreases n - i,
    {
        forms.push(sigil(trim(names[i].as_str())));
        i += 1;
    }
    assert(forms.deep_view() =~= sigil_forms(names.deep_view()));
    let mut out = String::from_str("| ");
    out.append(join(&forms, ", ").as_str());
    out.append(" |");
    out
}

/// Gives the bare expression of an output tag the target sigil.
pub fn sigil_output(tag: &str, expr: &str, close: &str) -> (out: String)
    ensures
        out@ == bare_output(tag@, expr@, close@),
{
    if expr.unicode_len() > 0 && expr.get_char(0) == '$' {
        String::from_str(tag)
    } else {
        let mut out = String::from_str("<%= $");
        out.append(expr);
        out.append(" ");
        out.append(close);
        out.append("%>");
        out
    }
}

/// Writes a closing tag and, where `owed`, the closing tag of a guard below
/// it.
pub fn close(tag: &str, owed: bool) -> (out: String)
    ensures
        out@ == closed(tag@, owed),
{
    let mut out = String::from_str(tag);
    if owed {
        out.append("\n<%- } -%>");
    }
    out
}

/// Writes a `versioncmp` call without the brackets around its arguments.
pub fn unbracket(opening: &str, args: &str, closing: &str) -> (out: String)
    ensures
        out@ == unbracketed(opening@, args@, closing@),
{
    let mut out = String::from_str(opening);
    out.append(args);
    out.append(closing);
    out
}

/// Reads the keys out of the matches of the key pattern.
pub fn key_texts(found: &Vec<Vec<Option<String>>>) -> (keys: Vec<String>)
    ensures
        keys.deep_view() == keys_of(found.deep_view()),
{
    let mut keys: Vec<String> = Vec::new();
    let n = found.len();
    let mut i: usize = 0;
    while i < n
        invariant
            i <= n == found.len(),
            keys.len() == i,
            forall|k: int| 0 <= k < i ==> (#[trigger] keys[k])@ == key_of(found[k].deep_view()),
        decreases n - i,
    {
        let m = &found[i];
        let key = if 1 < m.len() {
            assert(m.deep_view()[1] == m[1].deep_view());
            match &m[1] {
                Some(t) => t.as_str(),
                None => group_text(m, 2),
            }
        } else {
            group_text(m, 2)
        };
        keys.push(String::from_str(key));
        i += 1;
    }
    assert(keys.deep_view() =~= keys_of(found.deep_view()));
    keys
}

/// The quoted keys that a path expression accesses, in order.
pub fn path_keys(path: &str) -> (keys: Vec<String>)
    ensures
        keys.deep_view() == keys_in(path@),
{
    let scan = search(KEY_PATTERN, path);
    key_texts(&scan.found)
}

/// Writes what a rule puts in the place of the match `m`.
pub fn replacement(rule: Rule, m: &Vec<Option<String>>, ledger: Ledger) -> (out: (String, Ledger))
    ensures
        out.0@ == rewritten(rule, m.deep_view(), ledger).0,
        out.1 == rewritten(rule, m.deep_view(), ledger).1,
{
    match rule {
        Rule::Sigil => (sigil(group_text(m, 1)), ledger),
        Rule::If => (if_open(group_text(m, 1), group_text(m, 2), group_text(m, 3)), ledger),
        Rule::End => (block_end(group_text(m, 1), group_text(m, 2)), ledger),
        Rule::Elsif => (else_if(group_text(m, 1), group_text(m, 2), group_text(m, 3)), ledger),
        Rule::Else => (else_open(group_text(m, 1), group_text(m, 2)), ledger),
        Rule::EachDo => (
            each_open(group_text(m, 1), group_text(m, 2), group_text(m, 3), group_text(m, 4)),
            ledger,
        ),
        Rule::LoopArgs => (sigil_args(group_text(m, 1)), ledger),
        Rule::BareOutput => (
            sigil_output(group_text(m, 0), group_text(m, 1), group_text(m, 2)),
            ledger,
        ),
        Rule::GuardLoop => {
            let path = group_text(m, 2);
            let keys = path_keys(path);
            (
                guard_loop(
                    group_text(m, 1),
                    root_variable(path),
                    &keys,
                    group_text(m, 3),
                    group_text(m, 4),
                ),
                ledger.add_guard(),
            )
        },
        Rule::LoopEnd => (close(group_text(m, 0), ledger.owes()), ledger.add_close()),
        Rule::LegacyCall => (String::new(), ledger),
        Rule::Versioncmp => (
            unbracket(group_text(m, 1), group_text(m, 2), group_text(m, 3)),
            ledger,
        ),
    }
}

} // verus!
