//! The conversion itself: every tag of a document is put through the rewrite
//! rules in their fixed order, and the text between the tags is kept as it
//! is.

use crate::rules::{pattern, pattern_of, replacement, rewritten, sigil_form, Ledger, Rule};
use crate::search::{gap_text, group_text, search, searched, spliced, spliced_upto, whole, wholes};
use crate::search::{group, Groups};
use crate::search::{Scan, ScanView};
use vstd::prelude::*;
use vstd::string::*;

verus! {

/// A whole tag, from its opening to its closing delimiter, on one line.
pub const TAG_PATTERN: &'static str = r"<%[\-=]?\s*.*?%>";

/// The ledger once a rule has replaced the first `n` matches.
pub open spec fn ledger_after(rule: Rule, found: Seq<Groups>, ledger: Ledger, n: nat) -> Ledger
    decreases n,
{
    if n == 0 {
        ledger
    } else {
        rewritten(rule, found[n - 1], ledger_after(rule, found, ledger, (n - 1) as nat)).1
    }
}

/// What a rule puts in the place of each match, the matches taken in order.
pub open spec fn replacements(rule: Rule, found: Seq<Groups>, ledger: Ledger) -> Seq<Seq<char>> {
    Seq::new(
        found.len(),
        |i: int| rewritten(rule, found[i], ledger_after(rule, found, ledger, i as nat)).0,
    )
}

/// The searched text with every match replaced as the rule says, and the
/// ledger after the last match.
pub open spec fn rule_applied(rule: Rule, scan: ScanView, ledger: Ledger) -> (Seq<char>, Ledger) {
    (
        spliced(scan.gaps, replacements(rule, scan.found, ledger)),
        ledger_after(rule, scan.found, ledger, scan.found.len()),
    )
}

/// `text` after one rule: every directive that the rule's pattern finds is
/// replaced, the rest is kept.
pub open spec fn stage(rule: Rule, text: Seq<char>, ledger: Ledger) -> (Seq<char>, Ledger) {
    rule_applied(rule, searched(pattern(rule), text), ledger)
}

/// A tag after all rules, applied in their fixed order: sigils first, then
/// control flow, loops, guards and their closing tags, and the cosmetic rules
/// last.
pub open spec fn tag_rewritten(tag: Seq<char>, ledger: Ledger) -> (Seq<char>, Ledger) {
    let (t, l) = stage(Rule::Sigil, tag, ledger);
    let (t, l) = stage(Rule::If, t, l);
    let (t, l) = stage(Rule::End, t, l);
    let (t, l) = stage(Rule::Elsif, t, l);
    let (t, l) = stage(Rule::Else, t, l);
    let (t, l) = stage(Rule::EachDo, t, l);
    let (t, l) = stage(Rule::LoopArgs, t, l);
    let (t, l) = stage(Rule::BareOutput, t, l);
    let (t, l) = stage(Rule::GuardLoop, t, l);
    let (t, l) = stage(Rule::LoopEnd, t, l);
    let (t, l) = stage(Rule::LegacyCall, t, l);
    stage(Rule::Versioncmp, t, l)
}

/// The ledger once the first `n` tags of a document are rewritten.
pub open spec fn document_ledger(tags: Seq<Groups>, n: nat) -> Ledger
    decreases n,
{
    if n == 0 {
        Ledger { synthesized: 0, injected: 0 }
    } else {
        tag_rewritten(whole(tags[n - 1]), document_ledger(tags, (n - 1) as nat)).1
    }
}

/// Each tag of a document rewritten, the ledger handed on from tag to tag.
pub open spec fn rewritten_tags(tags: Seq<Groups>) -> Seq<Seq<char>> {
    Seq::new(tags.len(), |i: int| tag_rewritten(whole(tags[i]), document_ledger(tags, i as nat)).0)
}

/// A scanned document with every tag rewritten and the text between the tags
/// unchanged.
pub open spec fn document_rewritten(scan: ScanView) -> Seq<char> {
    spliced(scan.gaps, rewritten_tags(scan.found))
}

/// Whether the pattern of `rule` finds nothing in `text`.
pub open spec fn unmatched(rule: Rule, text: Seq<char>) -> bool {
    searched(pattern(rule), text).found.len() == 0
}

/// The tags of a document and the text around them.
pub open spec fn tags_of(input: Seq<char>) -> ScanView {
    searched(TAG_PATTERN@, input)
}

/// The converted document.
pub open spec fn converted(input: Seq<char>) -> Seq<char> {
    document_rewritten(tags_of(input))
}

/// Whether a rule leaves the ledger alone. All do but the rule that
/// synthesizes guards and the rule that closes them.
pub open spec fn keeps_ledger(rule: Rule) -> bool {
    !(rule is GuardLoop) && !(rule is LoopEnd)
}

/// Whether a ledger has no more closes than guards.
pub open spec fn balanced(ledger: Ledger) -> bool {
    ledger.injected <= ledger.synthesized
}

/// A rule other than the two that keep the ledger hands it on unchanged,
/// whatever it matches.
pub proof fn lemma_ledger_kept(rule: Rule, found: Seq<Groups>, ledger: Ledger, n: nat)
    requires
        keeps_ledger(rule),
    ensures
        ledger_after(rule, found, ledger, n) == ledger,
    decreases n,
{
    if n > 0 {
        lemma_ledger_kept(rule, found, ledger, (n - 1) as nat);
    }
}

/// Every variable reference that the sigil rule finds is replaced by its
/// name in the target dialect, whatever the ledger holds, and the ledger is
/// handed on as it was.
pub proof fn lemma_sigils_rewritten(found: Seq<Groups>, ledger: Ledger)
    ensures
        replacements(Rule::Sigil, found, ledger) == Seq::new(
            found.len(),
            |i: int| sigil_form(group(found[i], 1)),
        ),
        ledger_after(Rule::Sigil, found, ledger, found.len()) == ledger,
{
    lemma_ledger_kept(Rule::Sigil, found, ledger, found.len());
    assert(replacements(Rule::Sigil, found, ledger) =~= Seq::new(
        found.len(),
        |i: int| sigil_form(group(found[i], 1)),
    ));
}

/// No rule lets the closes outnumber the guards, and no rule takes a guard or
/// a close back.
pub proof fn lemma_ledger_balanced(rule: Rule, found: Seq<Groups>, ledger: Ledger, n: nat)
    requires
        balanced(ledger),
    ensures
        balanced(ledger_after(rule, found, ledger, n)),
        ledger.synthesized <= ledger_after(rule, found, ledger, n).synthesized,
        ledger.injected <= ledger_after(rule, found, ledger, n).injected,
    decreases n,
{
    if n > 0 {
        lemma_ledger_balanced(rule, found, ledger, (n - 1) as nat);
    }
}

/// Rewriting a tag never adds more closes than guards are owed one: a
/// balanced ledger stays balanced.
pub proof fn lemma_tag_ledger_balanced(tag: Seq<char>, ledger: Ledger)
    requires
        balanced(ledger),
    ensures
        balanced(tag_rewritten(tag, ledger).1),
        ledger.synthesized <= tag_rewritten(tag, ledger).1.synthesized,
        ledger.injected <= tag_rewritten(tag, ledger).1.injected,
{
    let (t1, l1) = stage(Rule::Sigil, tag, ledger);
    lemma_stage_balanced(Rule::Sigil, tag, ledger);
    let (t2, l2) = stage(Rule::If, t1, l1);
    lemma_stage_balanced(Rule::If, t1, l1);
    let (t3, l3) = stage(Rule::End, t2, l2);
    lemma_stage_balanced(Rule::End, t2, l2);
    let (t4, l4) = stage(Rule::Elsif, t3, l3);
    lemma_stage_balanced(Rule::Elsif, t3, l3);
    let (t5, l5) = stage(Rule::Else, t4, l4);
    lemma_stage_balanced(Rule::Else, t4, l4);
    let (t6, l6) = stage(Rule::EachDo, t5, l5);
    lemma_stage_balanced(Rule::EachDo, t5, l5);
    let (t7, l7) = stage(Rule::LoopArgs, t6, l6);
    lemma_stage_balanced(Rule::LoopArgs, t6, l6);
    let (t8, l8) = stage(Rule::BareOutput, t7, l7);
    lemma_stage_balanced(Rule::BareOutput, t7, l7);
    let (t9, l9) = stage(Rule::GuardLoop, t8, l8);
    lemma_stage_balanced(Rule::GuardLoop, t8, l8);
    let (t10, l10) = stage(Rule::LoopEnd, t9, l9);
    lemma_stage_balanced(Rule::LoopEnd, t9, l9);
    let (t11, l11) = stage(Rule::LegacyCall, t10, l10);
    lemma_stage_balanced(Rule::LegacyCall, t10, l10);
    lemma_stage_balanced(Rule::Versioncmp, t11, l11);
}

proof fn lemma_stage_balanced(rule: Rule, text: Seq<char>, ledger: Ledger)
    requires
        balanced(ledger),
    ensures
        balanced(stage(rule, text, ledger).1),
        ledger.synthesized <= stage(rule, text, ledger).1.synthesized,
        ledger.injected <= stage(rule, text, ledger).1.injected,
{
    let found = searched(pattern(rule), text).found;
    lemma_ledger_balanced(rule, found, ledger, found.len());
}

/// Over a whole document the closing tags that are added never outnumber the
/// guards that were synthesized before them.
pub proof fn lemma_document_ledger_balanced(tags: Seq<Groups>, n: nat)
    ensures
        balanced(document_ledger(tags, n)),
    decreases n,
{
    if n > 0 {
        lemma_document_ledger_balanced(tags, (n - 1) as nat);
        lemma_tag_ledger_balanced(whole(tags[n - 1]), document_ledger(tags, (n - 1) as nat));
    }
}

/// A rule that finds no match in a text that its scan covers leaves the text
/// and the ledger as they are.
pub proof fn lemma_unmatched_unchanged(rule: Rule, scan: ScanView, ledger: Ledger)
    requires
        scan.found.len() == 0,
    ensures
        rule_applied(rule, scan, ledger).0 == scan.source(),
        rule_applied(rule, scan, ledger).1 == ledger,
{
    assert(replacements(rule, scan.found, ledger) =~= wholes(scan.found));
}

/// Replaces every match of a scan as the rule says.
pub fn replace_matches(rule: Rule, scan: &Scan, ledger: Ledger) -> (out: (String, Ledger))
    ensures
        out.0@ == rule_applied(rule, scan@, ledger).0,
        out.1 == rule_applied(rule, scan@, ledger).1,
{
    let ghost reps = replacements(rule, scan@.found, ledger);
    let mut text = String::new();
    let mut current = ledger;
    let n = scan.found.len();
    let mut i: usize = 0;
    while i < n
        invariant
            i <= n == scan.found.len(),
            reps == replacements(rule, scan@.found, ledger),
            current == ledger_after(rule, scan@.found, ledger, i as nat),
            text@ == spliced_upto(scan@.gaps, reps, i as nat),
        decreases n - i,
    {
        assert(scan@.found[i as int] == scan.found[i as int].deep_view());
        text.append(gap_text(&scan.gaps, i));
        let (rep, next) = replacement(rule, &scan.found[i], current);
        text.append(rep.as_str());
        current = next;
        i += 1;
    }
    text.append(gap_text(&scan.gaps, n));
    (text, current)
}

/// Applies one rule to `text`. Where the rule's pattern finds nothing, the
/// text and the ledger come back as they are.
pub fn apply(rule: Rule, text: &str, ledger: Ledger) -> (out: (String, Ledger))
    ensures
        out.0@ == stage(rule, text@, ledger).0,
        out.1 == stage(rule, text@, ledger).1,
        unmatched(rule, text@) ==> out.0@ == text@ && out.1 == ledger,
{
    let scan = search(pattern_of(rule), text);
    proof {
        if scan@.found.len() == 0 {
            lemma_unmatched_unchanged(rule, scan@, ledger);
        }
    }
    replace_matches(rule, &scan, ledger)
}

/// Puts one tag through all rules in their order. A tag in which no rule
/// finds its directive comes back as it is.
pub fn rewrite_tag(tag: &str, ledger: Ledger) -> (out: (String, Ledger))
    ensures
        out.0@ == tag_rewritten(tag@, ledger).0,
        out.1 == tag_rewritten(tag@, ledger).1,
        (forall|rule: Rule| unmatched(rule, tag@)) ==> out.0@ == tag@ && out.1 == ledger,
{
    let (t, l) = apply(Rule::Sigil, tag, ledger);
    let (t, l) = apply(Rule::If, t.as_str(), l);
    let (t, l) = apply(Rule::End, t.as_str(), l);
    let (t, l) = apply(Rule::Elsif, t.as_str(), l);
    let (t, l) = apply(Rule::Else, t.as_str(), l);
    let (t, l) = apply(Rule::EachDo, t.as_str(), l);
    let (t, l) = apply(Rule::LoopArgs, t.as_str(), l);
    let (t, l) = apply(Rule::BareOutput, t.as_str(), l);
    let (t, l) = apply(Rule::GuardLoop, t.as_str(), l);
    let (t, l) = apply(Rule::LoopEnd, t.as_str(), l);
    let (t, l) = apply(Rule::LegacyCall, t.as_str(), l);
    apply(Rule::Versioncmp, t.as_str(), l)
}

/// Rewrites every tag of a scanned document, starting from an empty ledger.
pub fn rewrite_document(scan: &Scan) -> (out: String)
    ensures
        out@ == document_rewritten(scan@),
{
    let ghost reps = rewritten_tags(scan@.found);
    let mut text = String::new();
    let mut ledger = Ledger::new();
    let n = scan.found.len();
    let mut i: usize = 0;
    while i < n
        invariant
            i <= n == scan.found.len(),
            reps == rewritten_tags(scan@.found),
            ledger == document_ledger(scan@.found, i as nat),
            text@ == spliced_upto(scan@.gaps, reps, i as nat),
        decreases n - i,
    {
        assert(scan@.found[i as int] == scan.found[i as int].deep_view());
        text.append(gap_text(&scan.gaps, i));
        let (tag, next) = rewrite_tag(group_text(&scan.found[i], 0), ledger);
        text.append(tag.as_str());
        ledger = next;
        i += 1;
    }
    text.append(gap_text(&scan.gaps, n));
    text
}

/// Converts a document: every tag is rewritten into the target dialect, and
/// the text outside the tags is kept character for character. A document
/// without tags comes back unchanged.
pub fn convert_code(input: &str) -> (out: String)
    ensures
        out@ == converted(input@),
        tags_of(input@).found.len() == 0 ==> out@ == input@,
{
    let scan = search(TAG_PATTERN, input);
    proof {
        if scan@.found.len() == 0 {
            assert(rewritten_tags(scan@.found) =~= wholes(scan@.found));
        }
    }
    rewrite_document(&scan)
}

} // verus!
