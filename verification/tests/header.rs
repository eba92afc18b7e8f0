use erb2epp::header::{
    build_parameter_block, capitalize_first, declare, prepend_block, replace_first, Parameter,
};

fn parameter(name: &str, dtype: &str) -> Parameter {
    Parameter { name: name.to_string(), dtype: dtype.to_string() }
}

#[test]
fn capitalize_first_touches_the_first_character_only() {
    assert_eq!(capitalize_first("hash"), "Hash");
    assert_eq!(capitalize_first("Hash"), "Hash");
    assert_eq!(capitalize_first("hASH"), "HASH");
    assert_eq!(capitalize_first("array[String]"), "Array[String]");
    assert_eq!(capitalize_first("optional[string]"), "Optional[string]");
    assert_eq!(capitalize_first(""), "");
    assert_eq!(capitalize_first("1x"), "1x");
}

#[test]
fn capitalize_first_follows_unicode() {
    assert_eq!(capitalize_first("écu"), "Écu");
    assert_eq!(capitalize_first("ßa"), "SSa");
}

#[test]
fn replace_first_swaps_the_first_character() {
    assert_eq!(replace_first("hash", "H"), "Hash");
    assert_eq!(replace_first("h", "XY"), "XY");
    assert_eq!(replace_first("", "X"), "");
    assert_eq!(replace_first("éa", ""), "a");
}

#[test]
fn declare_writes_type_then_name() {
    assert_eq!(declare(&parameter("port", "integer")), "Integer $port");
    assert_eq!(declare(&parameter("x", "")), " $x");
}

#[test]
fn one_parameter_makes_a_block_of_one_line() {
    let block = build_parameter_block(&vec![parameter("name", "string")]);
    assert_eq!(block, "<%- | String $name | -%>\n");
}

#[test]
fn more_parameters_make_a_block_of_several_lines() {
    let block = build_parameter_block(&vec![
        parameter("a", "hash"),
        parameter("b", "string"),
        parameter("c", "boolean"),
    ]);
    assert_eq!(block, "<%- | Hash $a,\n      String $b,\n      Boolean $c,\n| -%>\n");
    let block = build_parameter_block(&vec![parameter("a", "hash"), parameter("b", "string")]);
    assert_eq!(block, "<%- | Hash $a,\n      String $b,\n| -%>\n");
}

#[test]
fn block_stands_before_the_document() {
    assert_eq!(
        prepend_block("<%- | String $name | -%>\n", "<%= $name %>"),
        "<%- | String $name | -%>\n<%= $name %>"
    );
}
