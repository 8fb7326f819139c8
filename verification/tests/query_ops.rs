//! The query-building vocabulary: operator and direction text, token
//! parsing, and the key/identifier string helpers.

use surreal_error_parser::query::parse_operator;
use surreal_error_parser::query::parse_order_dir;
use surreal_error_parser::query::push_query_str;
use surreal_error_parser::query::sanitize;
use surreal_error_parser::query::to_variable_ident;
use surreal_error_parser::query::Operator;
use surreal_error_parser::query::OrderDir;

#[test]
fn operator_text_forms() {
    assert_eq!(Operator::Eq.as_str(), "=");
    assert_eq!(Operator::Ne.as_str(), "!=");
    assert_eq!(Operator::Gt.as_str(), ">");
    assert_eq!(Operator::Ge.as_str(), ">=");
    assert_eq!(Operator::Lt.as_str(), "<");
    assert_eq!(Operator::Le.as_str(), "<=");
    assert_eq!(Operator::ContainsAny.as_str(), "CONTAINSANY");
    assert_eq!(Operator::Inside.as_str(), "INSIDE");
}

#[test]
fn operator_tokens_parse() {
    assert_eq!(parse_operator("="), Some(Operator::Eq));
    assert_eq!(parse_operator("!="), Some(Operator::Ne));
    assert_eq!(parse_operator(">"), Some(Operator::Gt));
    assert_eq!(parse_operator(">="), Some(Operator::Ge));
    assert_eq!(parse_operator("<"), Some(Operator::Lt));
    assert_eq!(parse_operator("<="), Some(Operator::Le));
}

#[test]
fn array_operators_have_no_token_form() {
    assert_eq!(parse_operator("CONTAINSANY"), None);
    assert_eq!(parse_operator("INSIDE"), None);
    assert_eq!(parse_operator("=="), None);
    assert_eq!(parse_operator(""), None);
}

#[test]
fn order_dir_text_forms() {
    assert_eq!(OrderDir::Asc.as_str(), "ASC");
    assert_eq!(OrderDir::Desc.as_str(), "DESC");
}

#[test]
fn order_dir_tokens_parse() {
    assert_eq!(parse_order_dir("asc"), Some(OrderDir::Asc));
    assert_eq!(parse_order_dir("desc"), Some(OrderDir::Desc));
    assert_eq!(parse_order_dir("ASC"), None);
    assert_eq!(parse_order_dir("descending"), None);
}

#[test]
fn push_query_str_appends_with_one_space() {
    let mut q = String::from("SELECT id FROM user");
    push_query_str(&mut q, "LIMIT 10");
    assert_eq!(q, "SELECT id FROM user LIMIT 10");
    push_query_str(&mut q, "START 0");
    assert_eq!(q, "SELECT id FROM user LIMIT 10 START 0");
}

#[test]
fn variable_ident_replaces_dots() {
    assert_eq!(to_variable_ident("name"), "name");
    assert_eq!(to_variable_ident("user.address.city"), "user_address_city");
    assert_eq!(to_variable_ident(""), "");
}

#[test]
fn sanitize_keeps_first_identifier_run() {
    assert_eq!(sanitize("name"), Some("name"));
    assert_eq!(sanitize("user.address"), Some("user.address"));
    assert_eq!(sanitize("'name' OR 1=1"), Some("name"));
    assert_eq!(sanitize("  spaced.key  "), Some("spaced.key"));
    assert_eq!(sanitize("a.b!c"), Some("a.b"));
}

#[test]
fn sanitize_rejects_keys_without_identifier_characters() {
    assert_eq!(sanitize(""), None);
    assert_eq!(sanitize("'-+!"), None);
    assert_eq!(sanitize("   "), None);
}
