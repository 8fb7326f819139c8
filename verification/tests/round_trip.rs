//! Render/parse round trips through the full catalog, including values
//! that carry punctuation, quotes, and the templates' own literal text.

use surreal_error_parser::QueryError;

#[test]
fn single_placeholder_recovery_is_exact_for_any_value() {
    // A single capture slot recovers its value exactly, even when the
    // value embeds the template's own prefix text.
    let message = "An error occurred: nested, with `ticks`, '.*+?' and {braces}";
    let text = format!("An error occurred: {}", message);
    let error = QueryError::from_string(&text).unwrap();
    assert_eq!(error, QueryError::Thrown(message.to_string()));
}

#[test]
fn quoted_value_keeps_its_own_quotes() {
    let value = "a 'quoted' node";
    let text = format!("The node '{}' does not exist", value);
    let error = QueryError::from_string(&text).unwrap();
    assert_eq!(
        error,
        QueryError::NdNotFound {
            value: value.to_string()
        }
    );
}

#[test]
fn multi_placeholder_round_trip_with_punctuation() {
    let from = "array<record(user)>";
    let into = "set<int, 3>";
    let text = format!("Expected a {} but found {}", into, from);
    let error = QueryError::from_string(&text).unwrap();
    assert_eq!(
        error,
        QueryError::CoerceTo {
            from: from.to_string(),
            into: into.to_string(),
        }
    );
}

#[test]
fn appended_text_shifts_the_match_to_the_catch_all() {
    // "Index is corrupted" is a literal template; one extra character
    // keeps it from matching, and only the final catch-all is left.
    let error = QueryError::from_string("Index is corrupted!").unwrap();
    assert_eq!(
        error,
        QueryError::Deprecated("Index is corrupted!".to_string())
    );
    let exact = QueryError::from_string("Index is corrupted").unwrap();
    assert_eq!(exact, QueryError::CorruptedIndex);
}

#[test]
fn captured_values_may_span_lines() {
    let message = "first line\nsecond line";
    let text = format!("An error occurred: {}", message);
    let error = QueryError::from_string(&text).unwrap();
    assert_eq!(error, QueryError::Thrown(message.to_string()));
}
