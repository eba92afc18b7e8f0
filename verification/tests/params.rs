use erb2epp::params::{
    all_names, candidates, extract_template_parameters, first_groups, list_names, names_bound,
    names_referenced,
};

fn texts(items: &[&str]) -> Vec<String> {
    items.iter().map(|s| s.to_string()).collect()
}

fn groups(items: &[Option<&str>]) -> Vec<Option<String>> {
    items.iter().map(|g| g.map(|s| s.to_string())).collect()
}

#[test]
fn loop_bound_name_is_no_candidate() {
    let input = "<%= @a %> and <%= @b %>\n<% [1, 2].each do |b| %><%= b %><% end %>";
    assert_eq!(extract_template_parameters(input), texts(&["a"]));
}

#[test]
fn loop_bound_name_is_excluded_wherever_it_is_bound() {
    let input = "<% @list.each do |b| %><% end %><%= @a %><%= @b %>";
    assert_eq!(extract_template_parameters(input), texts(&["a", "list"]));
}

#[test]
fn candidates_are_listed_once_in_ascending_order() {
    let input = "<%= @zeta %><%= @alpha %><%= @zeta + @Beta %><%= @_x %>";
    assert_eq!(extract_template_parameters(input), texts(&["Beta", "_x", "alpha", "zeta"]));
}

#[test]
fn only_tags_are_scanned() {
    assert_eq!(extract_template_parameters("@x <%= @y %> @z"), texts(&["y"]));
    assert_eq!(extract_template_parameters("no tags, @x"), texts(&[]));
    assert_eq!(extract_template_parameters(""), texts(&[]));
}

#[test]
fn tag_content_may_span_lines() {
    assert_eq!(extract_template_parameters("<% if @a &&\n   @c %>"), texts(&["a", "c"]));
}

#[test]
fn brace_form_loops_bind_too() {
    let input = "<% $items.each |k, v| { %><%= @k %><%= @w %><%= @v %>";
    assert_eq!(extract_template_parameters(input), texts(&["w"]));
}

#[test]
fn first_groups_reads_group_one() {
    let found = vec![
        groups(&[Some("@a"), Some("a")]),
        groups(&[Some("@b"), None]),
        groups(&[Some("@c")]),
    ];
    assert_eq!(first_groups(&found), texts(&["a", "", ""]));
}

#[test]
fn list_names_trims_each_name() {
    assert_eq!(list_names("k"), texts(&["k"]));
    assert_eq!(list_names("k , v,w"), texts(&["k", "v", "w"]));
    assert_eq!(list_names(""), texts(&[""]));
}

#[test]
fn all_names_reads_every_list() {
    assert_eq!(all_names(&texts(&["a, b", "c", "b ,d"])), texts(&["a", "b", "c", "b", "d"]));
    assert_eq!(all_names(&texts(&[])), texts(&[]));
}

#[test]
fn names_referenced_lists_each_occurrence() {
    assert_eq!(names_referenced("if @a == @b_1 && @a"), texts(&["a", "b_1", "a"]));
    assert_eq!(names_referenced("a @ b @1x"), texts(&[]));
}

#[test]
fn names_bound_reads_block_and_brace_loops() {
    assert_eq!(names_bound("@h.each do |k, v|"), texts(&["k", "v"]));
    assert_eq!(names_bound("$h.each |x| {"), texts(&["x"]));
    assert_eq!(names_bound("$h.map |x| {"), texts(&[]));
}

#[test]
fn candidates_are_the_referenced_names_that_are_not_bound() {
    assert_eq!(
        candidates(&texts(&["b", "a", "b", "c"]), &texts(&["c", "q"])),
        texts(&["a", "b"])
    );
    assert_eq!(candidates(&texts(&["a"]), &texts(&["a"])), texts(&[]));
    assert_eq!(candidates(&texts(&[]), &texts(&["a"])), texts(&[]));
}
