use erb2epp::header::build_parameter_block;
use erb2epp::header::prepend_block;
use erb2epp::negotiate::{
    exclusions, label, list_candidates, strip_sigil, without, Negotiation, Request,
};
use erb2epp::params::extract_template_parameters;
use erb2epp::rewrite::convert_code;

fn texts(items: &[&str]) -> Vec<String> {
    items.iter().map(|s| s.to_string()).collect()
}

fn exclusions_asked(request: Request) -> String {
    match request {
        Request::Exclusions(listing) => listing,
        _ => panic!("the exclusions were not asked for"),
    }
}

fn type_asked(request: Request) -> String {
    match request {
        Request::TypeOf(label) => label,
        _ => panic!("no type was asked for"),
    }
}

#[test]
fn strip_sigil_drops_white_space_and_at_signs() {
    assert_eq!(strip_sigil(" @a "), "a");
    assert_eq!(strip_sigil("a"), "a");
    assert_eq!(strip_sigil("@@a@"), "a@");
    assert_eq!(strip_sigil("@ a"), " a");
    assert_eq!(strip_sigil(" @ "), "");
}

#[test]
fn empty_response_excludes_nothing() {
    assert_eq!(exclusions(""), texts(&[]));
    assert_eq!(exclusions("\n"), texts(&[]));
    assert_eq!(exclusions("  \t "), texts(&[]));
}

#[test]
fn response_lists_names_with_or_without_sigil() {
    assert_eq!(exclusions("a\n"), texts(&["a"]));
    assert_eq!(exclusions("@a, b ,@c\n"), texts(&["a", "b", "c"]));
    assert_eq!(exclusions("a,,b"), texts(&["a", "", "b"]));
}

#[test]
fn without_keeps_the_order_of_the_rest() {
    assert_eq!(
        without(&texts(&["a", "b", "c", "d"]), &texts(&["c", "a", "x"])),
        texts(&["b", "d"])
    );
    assert_eq!(without(&texts(&["a", "b"]), &texts(&[])), texts(&["a", "b"]));
    assert_eq!(without(&texts(&["a"]), &texts(&["a"])), texts(&[]));
}

#[test]
fn candidates_are_shown_with_their_sigil() {
    assert_eq!(list_candidates(&texts(&["a", "b"])), "@a, @b");
    assert_eq!(list_candidates(&texts(&["a"])), "@a");
    assert_eq!(list_candidates(&texts(&[])), "");
}

#[test]
fn type_is_asked_under_the_target_sigil() {
    assert_eq!(label("port"), "$port: ");
}

#[test]
fn dialogue_asks_exclusions_then_one_type_per_name() {
    let mut state = Negotiation::new(texts(&["a", "b", "c"]));
    assert!(!state.is_finished());
    assert_eq!(exclusions_asked(state.request()), "@a, @b, @c");
    state.answer("@b\n");
    assert_eq!(state.names, texts(&["a", "c"]));
    assert!(!state.is_finished());
    assert_eq!(type_asked(state.request()), "$a: ");
    state.answer("  hash \n");
    assert_eq!(type_asked(state.request()), "$c: ");
    state.answer("Array[String]\n");
    assert!(state.is_finished());
    assert!(matches!(state.request(), Request::Nothing));
    let params = state.parameters();
    assert_eq!(params.len(), 2);
    assert_eq!((params[0].name.as_str(), params[0].dtype.as_str()), ("a", "hash"));
    assert_eq!((params[1].name.as_str(), params[1].dtype.as_str()), ("c", "Array[String]"));
    state.answer("more");
    assert_eq!(state.names, texts(&["a", "c"]));
    assert_eq!(state.types, texts(&["hash", "Array[String]"]));
}

#[test]
fn empty_answer_accepts_all_candidates() {
    let mut state = Negotiation::new(texts(&["a", "b"]));
    state.answer("\n");
    assert_eq!(state.names, texts(&["a", "b"]));
    assert!(state.types.is_empty());
    assert!(state.screened);
}

#[test]
fn type_is_taken_as_given() {
    let mut state = Negotiation::new(texts(&["a"]));
    state.answer("");
    state.answer("\n");
    assert!(state.is_finished());
    assert_eq!(state.types, texts(&[""]));
}

#[test]
fn dialogue_ends_at_once_when_every_candidate_is_dropped() {
    let mut state = Negotiation::new(texts(&["a"]));
    state.answer("a");
    assert!(state.is_finished());
    assert!(state.parameters().is_empty());
}

#[test]
fn document_is_converted_and_headed_by_its_parameters() {
    let input = "<% if @enabled %>\n<% @ports.each do |port| %>\nListen <%= port %>\n<% end %>\n<% end %>\nUser <%= @user %>\n";
    let mut state = Negotiation::new(extract_template_parameters(input));
    assert_eq!(exclusions_asked(state.request()), "@enabled, @ports, @user");
    state.answer("user\n");
    for line in ["boolean\n", "array\n"] {
        state.answer(line);
    }
    assert!(state.is_finished());
    let block = build_parameter_block(&state.parameters());
    let output = prepend_block(&block, &convert_code(input));
    assert_eq!(
        output,
        "<%- | Boolean $enabled,\n      Array $ports,\n| -%>\n<% if $enabled { %>\n<% $ports.each | $port | { %>\nListen <%= $port %>\n<% } %>\n<% } %>\nUser <%= $user %>\n"
    );
}
