use erb2epp::rules::{
    block_end, close, each_open, else_if, else_open, if_open, key_texts, path_keys, pattern_of,
    replacement, sigil, sigil_args, sigil_output, unbracket, Ledger, Rule,
};

fn texts(items: &[&str]) -> Vec<String> {
    items.iter().map(|s| s.to_string()).collect()
}

fn groups(items: &[Option<&str>]) -> Vec<Option<String>> {
    items.iter().map(|g| g.map(|s| s.to_string())).collect()
}

fn counts(ledger: Ledger) -> (usize, usize) {
    (ledger.synthesized, ledger.injected)
}

#[test]
fn sigil_puts_a_dollar_before_the_name() {
    assert_eq!(sigil("foo"), "$foo");
    assert_eq!(sigil(""), "$");
}

#[test]
fn control_flow_tags_are_written_with_braces() {
    assert_eq!(if_open("", "$x", ""), "<% if $x { %>");
    assert_eq!(if_open("-", "$x == 1", "-"), "<%- if $x == 1 { -%>");
    assert_eq!(block_end("", ""), "<% } %>");
    assert_eq!(block_end("-", ""), "<%- } %>");
    assert_eq!(else_if("", "$y", "-"), "<% } else if $y { -%>");
    assert_eq!(else_open("-", "-"), "<%- } else { -%>");
}

#[test]
fn each_open_writes_the_loop_in_brace_form() {
    assert_eq!(each_open("", "$items", "x", ""), "<% $items.each | x | { %>");
    assert_eq!(each_open("-", "$h.keys", "k, v", "-"), "<%- $h.keys.each | k, v | { -%>");
}

#[test]
fn sigil_args_prefixes_each_name() {
    assert_eq!(sigil_args("x"), "| $x |");
    assert_eq!(sigil_args("k, v"), "| $k, $v |");
    assert_eq!(sigil_args(" k ,v , w"), "| $k, $v, $w |");
}

#[test]
fn sigil_output_leaves_an_expression_with_sigil_alone() {
    assert_eq!(sigil_output("<%= foo -%>", "foo", "-"), "<%= $foo -%>");
    assert_eq!(sigil_output("<%=foo.bar%>", "foo.bar", ""), "<%= $foo.bar %>");
    assert_eq!(sigil_output("<%= $foo %>", "$foo", ""), "<%= $foo %>");
    assert_eq!(sigil_output("<%=  %>", "", ""), "<%= $ %>");
}

#[test]
fn close_adds_the_guard_close_only_where_owed() {
    assert_eq!(close("<% } %>", true), "<% } %>\n<%- } -%>");
    assert_eq!(close("<% } %>", false), "<% } %>");
}

#[test]
fn unbracket_keeps_call_and_arguments() {
    assert_eq!(unbracket("versioncmp(", "$a, $b", ")"), "versioncmp($a, $b)");
}

#[test]
fn key_texts_reads_either_quote_group() {
    let found = vec![
        groups(&[Some("['a']"), Some("a"), None]),
        groups(&[Some("[\"b\"]"), None, Some("b")]),
        groups(&[Some("['']"), Some(""), None]),
        groups(&[Some("x")]),
    ];
    assert_eq!(key_texts(&found), texts(&["a", "b", "", ""]));
}

#[test]
fn path_keys_finds_quoted_keys_in_order() {
    assert_eq!(path_keys("$v['a'][\"b\"]['c d']"), texts(&["a", "b", "c d"]));
    assert_eq!(path_keys("$v"), texts(&[]));
    assert_eq!(path_keys("$v[0][k]"), texts(&[]));
}

#[test]
fn ledger_counts_guards_and_closes() {
    let ledger = Ledger::new();
    assert_eq!(counts(ledger), (0, 0));
    assert!(!ledger.owes());
    assert_eq!(counts(ledger.add_close()), (0, 0));
    let ledger = ledger.add_guard().add_guard();
    assert_eq!(counts(ledger), (2, 0));
    assert!(ledger.owes());
    let ledger = ledger.add_close();
    assert_eq!(counts(ledger), (2, 1));
    let ledger = ledger.add_close();
    assert_eq!(counts(ledger), (2, 2));
    assert!(!ledger.owes());
    assert_eq!(counts(ledger.add_close()), (2, 2));
}

#[test]
fn ledger_stops_counting_at_the_largest_number() {
    let ledger = Ledger { synthesized: usize::MAX, injected: 0 };
    assert_eq!(counts(ledger.add_guard()), (usize::MAX, 0));
}

#[test]
fn replacement_follows_the_rule() {
    let l = Ledger { synthesized: 1, injected: 0 };
    let m = groups(&[Some("WHOLE"), Some("A"), Some("B"), Some("C"), Some("D")]);
    let cases = [
        (Rule::Sigil, "$A", (1, 0)),
        (Rule::If, "<%A if B { C%>", (1, 0)),
        (Rule::End, "<%A } B%>", (1, 0)),
        (Rule::Elsif, "<%A } else if B { C%>", (1, 0)),
        (Rule::Else, "<%A } else { B%>", (1, 0)),
        (Rule::EachDo, "<%A B.each | C | { D%>", (1, 0)),
        (Rule::LoopArgs, "| $A |", (1, 0)),
        (Rule::BareOutput, "<%= $A B%>", (1, 0)),
        (Rule::GuardLoop, "<%- if true { -%>\n<%A B.each | C | { D%>", (2, 0)),
        (Rule::LoopEnd, "WHOLE\n<%- } -%>", (1, 1)),
        (Rule::LegacyCall, "", (1, 0)),
        (Rule::Versioncmp, "ABC", (1, 0)),
    ];
    for (rule, text, ledger) in cases {
        let (out, after) = replacement(rule, &m, l);
        assert_eq!(out, text, "{:?}", rule);
        assert_eq!(counts(after), ledger, "{:?}", rule);
    }
}

#[test]
fn replacement_takes_a_group_that_took_no_part_as_empty() {
    let m = groups(&[Some("<%if x%>"), None, Some("x"), None]);
    let (out, _) = replacement(Rule::If, &m, Ledger::new());
    assert_eq!(out, "<% if x { %>");
}

#[test]
fn every_pattern_is_accepted_by_the_engine() {
    let rules = [
        Rule::Sigil,
        Rule::If,
        Rule::End,
        Rule::Elsif,
        Rule::Else,
        Rule::EachDo,
        Rule::LoopArgs,
        Rule::BareOutput,
        Rule::GuardLoop,
        Rule::LoopEnd,
        Rule::LegacyCall,
        Rule::Versioncmp,
    ];
    for rule in rules {
        assert!(regex_lite::Regex::new(pattern_of(rule)).is_ok(), "{:?}", rule);
    }
    for p in [
        erb2epp::rules::KEY_PATTERN,
        erb2epp::rewrite::TAG_PATTERN,
        erb2epp::params::BODY_PATTERN,
        erb2epp::params::BINDING_PATTERN,
    ] {
        assert!(regex_lite::Regex::new(p).is_ok(), "{}", p);
    }
}
