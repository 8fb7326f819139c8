//! Engine-level behavior: template validation, declaration-order
//! precedence, whole-string anchoring, round trips, and the explicit
//! no-match result.

use surreal_error_parser::errors::catalog_compiles;
use surreal_error_parser::registry::Declaration;
use surreal_error_parser::registry::PatternRegistry;
use surreal_error_parser::template::compile;
use surreal_error_parser::template::FieldShape;
use surreal_error_parser::template::ShapeMismatch;

fn decl(t: &str, shape: FieldShape) -> Declaration {
    Declaration {
        template: String::from(t),
        shape,
    }
}

fn named(fields: &[&str]) -> FieldShape {
    FieldShape::Named(fields.iter().map(|f| String::from(*f)).collect())
}

#[test]
fn the_error_catalog_compiles() {
    assert!(catalog_compiles());
}

#[test]
fn unit_template_with_placeholder_fails() {
    let r = compile("Found {value}", &FieldShape::Unit);
    assert_eq!(r.unwrap_err(), ShapeMismatch::UnitHasPlaceholders);
}

#[test]
fn unit_template_without_placeholder_compiles() {
    assert!(compile("Index is corrupted", &FieldShape::Unit).is_ok());
}

#[test]
fn positional_index_out_of_range_fails() {
    let r = compile("pair {0} and {2}", &FieldShape::Positional(2));
    assert_eq!(r.unwrap_err(), ShapeMismatch::IndexOutOfRange);
}

#[test]
fn positional_arity_mismatch_fails() {
    let r = compile("only {0}", &FieldShape::Positional(2));
    assert_eq!(r.unwrap_err(), ShapeMismatch::ArityMismatch);
}

#[test]
fn positional_duplicate_index_fails() {
    let r = compile("{0} and {0}", &FieldShape::Positional(2));
    assert_eq!(r.unwrap_err(), ShapeMismatch::ArityMismatch);
}

#[test]
fn positional_non_numeric_token_fails() {
    let r = compile("value {zero}", &FieldShape::Positional(1));
    assert_eq!(r.unwrap_err(), ShapeMismatch::IndexOutOfRange);
}

#[test]
fn positional_out_of_order_indices_compile() {
    assert!(compile("{1} before {0}", &FieldShape::Positional(2)).is_ok());
}

#[test]
fn named_missing_field_fails() {
    let r = compile("only {a}", &named(&["a", "b"]));
    assert_eq!(r.unwrap_err(), ShapeMismatch::MissingField);
}

#[test]
fn named_unknown_field_fails() {
    let r = compile("{a} and {b} and {c}", &named(&["a", "b"]));
    assert_eq!(r.unwrap_err(), ShapeMismatch::UnknownField);
}

#[test]
fn named_fields_in_any_order_compile() {
    assert!(compile("{b} then {a}", &named(&["a", "b"])).is_ok());
}

#[test]
fn build_propagates_first_compile_failure() {
    let decls = vec![
        decl("fine", FieldShape::Unit),
        decl("broken {a}", FieldShape::Unit),
        decl("also broken {0}", FieldShape::Positional(2)),
    ];
    let r = PatternRegistry::build(&decls);
    assert!(matches!(r, Err(ShapeMismatch::UnitHasPlaceholders)));
}

#[test]
fn empty_text_without_catch_all_is_no_match() {
    let decls = vec![
        decl("a literal message", FieldShape::Unit),
        decl("value: {0}", FieldShape::Positional(1)),
    ];
    let reg = PatternRegistry::build(&decls).unwrap();
    assert!(reg.match_text("").is_none());
}

#[test]
fn no_match_is_a_value_not_a_panic() {
    let decls = vec![decl("exact", FieldShape::Unit)];
    let reg = PatternRegistry::build(&decls).unwrap();
    assert!(reg.match_text("something else entirely").is_none());
}

#[test]
fn order_decides_between_overlapping_patterns() {
    let specific = decl("Error: {0}", FieldShape::Positional(1));
    let broad = decl("{0}", FieldShape::Positional(1));

    let reg = PatternRegistry::build(&vec![specific, broad]).unwrap();
    let sv = reg.match_text("Error: boom").unwrap();
    assert_eq!(sv.variant, 0);
    assert_eq!(sv.fields, vec![String::from("boom")]);

    let specific = decl("Error: {0}", FieldShape::Positional(1));
    let broad = decl("{0}", FieldShape::Positional(1));
    let reg = PatternRegistry::build(&vec![broad, specific]).unwrap();
    let sv = reg.match_text("Error: boom").unwrap();
    assert_eq!(sv.variant, 0);
    assert_eq!(sv.fields, vec![String::from("Error: boom")]);
}

#[test]
fn matching_is_anchored_to_the_whole_string() {
    let decls = vec![decl("Index is corrupted", FieldShape::Unit)];
    let reg = PatternRegistry::build(&decls).unwrap();
    assert!(reg.match_text("Index is corrupted").is_some());
    assert!(reg.match_text("Index is corrupted!").is_none());
    assert!(reg.match_text("!Index is corrupted").is_none());
    assert!(reg.match_text("oh no Index is corrupted today").is_none());
}

#[test]
fn trailing_literal_rejects_appended_text() {
    let decls = vec![decl("The '{value}' is gone", named(&["value"]))];
    let reg = PatternRegistry::build(&decls).unwrap();
    assert!(reg.match_text("The 'x' is gone").is_some());
    assert!(reg.match_text("The 'x' is gone now").is_none());
    assert!(reg.match_text("sadly The 'x' is gone").is_none());
}

#[test]
fn named_capture_reordered_into_field_order() {
    let decls = vec![decl("{b} before {a}", named(&["a", "b"]))];
    let reg = PatternRegistry::build(&decls).unwrap();
    let sv = reg.match_text("BBB before AAA").unwrap();
    assert_eq!(sv.fields, vec![String::from("AAA"), String::from("BBB")]);
}

#[test]
fn positional_capture_reordered_into_field_order() {
    let decls = vec![decl("{1} before {0}", FieldShape::Positional(2))];
    let reg = PatternRegistry::build(&decls).unwrap();
    let sv = reg.match_text("second before first").unwrap();
    assert_eq!(
        sv.fields,
        vec![String::from("first"), String::from("second")]
    );
}

#[test]
fn round_trip_with_pattern_special_characters() {
    let a = "x.*+?[](){}^$|";
    let b = "'quoted' `ticked` $dollar";
    let text = format!("Pair: {a} and {b}", a = a, b = b);
    let decls = vec![decl("Pair: {a} and {b}", named(&["a", "b"]))];
    let reg = PatternRegistry::build(&decls).unwrap();
    let sv = reg.match_text(&text).unwrap();
    assert_eq!(sv.fields, vec![String::from(a), String::from(b)]);
}

#[test]
fn greedy_capture_takes_the_longest_span() {
    // The separator also occurs inside the second value, so the first
    // wildcard, being greedy, absorbs it: the extracted values differ
    // from the rendered ones but render back to the same text.
    let decls = vec![decl("{a}x{b}", named(&["a", "b"]))];
    let reg = PatternRegistry::build(&decls).unwrap();
    let sv = reg.match_text("1x2x3").unwrap();
    assert_eq!(sv.fields, vec![String::from("1x2"), String::from("3")]);
}

#[test]
fn repeated_named_placeholder_captures_first_occurrence() {
    let decls = vec![decl("{a} and again {a}", named(&["a"]))];
    let reg = PatternRegistry::build(&decls).unwrap();
    let sv = reg.match_text("one and again two").unwrap();
    assert_eq!(sv.fields, vec![String::from("one")]);
}

#[test]
fn catch_all_declared_last_matches_empty_text() {
    let decls = vec![
        decl("Cannot negate the value '{0}'", FieldShape::Positional(1)),
        decl("{0}", FieldShape::Positional(1)),
    ];
    let reg = PatternRegistry::build(&decls).unwrap();

    let sv = reg.match_text("Cannot negate the value 'x'").unwrap();
    assert_eq!(sv.variant, 0);
    assert_eq!(sv.fields, vec![String::from("x")]);

    let sv = reg.match_text("").unwrap();
    assert_eq!(sv.variant, 1);
    assert_eq!(sv.fields, vec![String::from("")]);
}

#[test]
fn end_to_end_named_example() {
    let decls = vec![decl(
        "The node '{value}' does not exist",
        named(&["value"]),
    )];
    let reg = PatternRegistry::build(&decls).unwrap();
    let sv = reg.match_text("The node 'a node' does not exist").unwrap();
    assert_eq!(sv.fields, vec![String::from("a node")]);
}

#[test]
fn literal_braces_without_token_stay_literal() {
    // `{}` and `{not a token}` contain no word-character run directly
    // inside braces, so they are literal text, not placeholders.
    let decls = vec![decl("set {} of {not a token}", FieldShape::Unit)];
    let reg = PatternRegistry::build(&decls).unwrap();
    assert!(reg.match_text("set {} of {not a token}").is_some());
    assert!(reg.match_text("set {1} of {not a token}").is_none());
}
