//! Reconstruction of each catalog message, with the exact rendered
//! text and the exact expected variant and field values.

use surreal_error_parser::QueryError;

#[test]
fn coerce_to() {
    let from = "aslkdu4rlasjdv".to_string();
    let into = "847aasldjvla".to_string();

    let error_string = format!(
        "Expected a {into} but found {from}",
        from = from,
        into = into
    );

    let error = QueryError::from_string(&error_string).unwrap();

    assert_eq!(error, QueryError::CoerceTo { from, into });
}

#[test]
fn convert_to() {
    let into = "aslkdu4rlasjdv".to_string();
    let from = "847aasldjvla".to_string();
    let into_2 = "alksid74*jf238764$%^".to_string();

    let error_string = format!(
        "Expected a {into} but cannot convert {from} into a {into_2}",
        from = from,
        into = into,
        into_2 = into_2
    );

    let error = QueryError::from_string(&error_string).unwrap();

    assert_eq!(error, QueryError::ConvertTo { from, into });
}

#[test]
fn length_invalid() {
    let kind = "7as4lksd".to_string();
    let size = "q38247q9".to_string();

    let error_string = format!(
        "Expected a {kind} but the array had {size} items",
        kind = kind,
        size = size
    );

    let error = QueryError::from_string(&error_string).unwrap();

    assert_eq!(error, QueryError::LengthInvalid { kind, size });
}

#[test]
fn try_add() {
    let first = "89423ajd".to_string();
    let second = "q9328paslu;d".to_string();

    let error_string = format!(
        "Cannot perform addition with '{first}' and '{second}'",
        first = first,
        second = second
    );

    let error = QueryError::from_string(&error_string).unwrap();

    assert_eq!(error, QueryError::TryAdd(first, second));
}

#[test]
fn try_sub() {
    let first = "q9823sd;ljkjf".to_string();
    let second = "aosiue674sdu".to_string();

    let error_string = format!(
        "Cannot perform subtraction with '{first}' and '{second}'",
        first = first,
        second = second
    );

    let error = QueryError::from_string(&error_string).unwrap();

    assert_eq!(error, QueryError::TrySub(first, second));
}

#[test]
fn try_mul() {
    let first = "ao8we4sdjl".to_string();
    let second = "aoisd6jcsh".to_string();

    let error_string = format!(
        "Cannot perform multiplication with '{first}' and '{second}'",
        first = first,
        second = second
    );

    let error = QueryError::from_string(&error_string).unwrap();

    assert_eq!(error, QueryError::TryMul(first, second));
}

#[test]
fn try_div() {
    let first = "ajsldh4oi6".to_string();
    let second = "alkxc;a7i4".to_string();

    let error_string = format!(
        "Cannot perform division with '{first}' and '{second}'",
        first = first,
        second = second
    );

    let error = QueryError::from_string(&error_string).unwrap();

    assert_eq!(error, QueryError::TryDiv(first, second));
}

#[test]
fn try_pow() {
    let first = "als;id74cslk".to_string();
    let second = "alskd74".to_string();

    let error_string = format!(
        "Cannot raise the value '{first}' with '{second}'",
        first = first,
        second = second
    );

    let error = QueryError::from_string(&error_string).unwrap();

    assert_eq!(error, QueryError::TryPow(first, second));
}

#[test]
fn try_neg() {
    let first = "aslkcu4i".to_string();

    let error_string = format!("Cannot negate the value '{first}'", first = first);

    let error = QueryError::from_string(&error_string).unwrap();

    assert_eq!(error, QueryError::TryNeg(first));
}

#[test]
fn try_from() {
    let first = "askdjl4iso7".to_string();
    let second = "aiowse47scl".to_string();

    let error_string = format!(
        "Cannot convert from '{first}' to '{second}'",
        first = first,
        second = second
    );

    let error = QueryError::from_string(&error_string).unwrap();

    assert_eq!(error, QueryError::TryFrom(first, second));
}

#[test]
fn http() {
    let first = ";oia47wed".to_string();

    let error_string = format!(
        "There was an error processing a remote HTTP request: {first}",
        first = first
    );

    let error = QueryError::from_string(&error_string).unwrap();

    assert_eq!(error, QueryError::Http(first));
}

#[test]
fn channel() {
    let first = "oi57cmv".to_string();

    let error_string = format!(
        "There was an error processing a value in parallel: {first}",
        first = first
    );

    let error = QueryError::from_string(&error_string).unwrap();

    assert_eq!(error, QueryError::Channel(first));
}

#[test]
fn io() {
    let first = "lkas;du4".to_string();

    let error_string = format!("I/O error: {first}", first = first);

    let error = QueryError::from_string(&error_string).unwrap();

    assert_eq!(error, QueryError::Io(first));
}

#[test]
fn encode() {
    let first = "5io7d".to_string();

    let error_string = format!("Key encoding error: {first}", first = first);

    let error = QueryError::from_string(&error_string).unwrap();

    assert_eq!(error, QueryError::Encode(first));
}

#[test]
fn decode() {
    let first = "alkse7u47".to_string();

    let error_string = format!("Key decoding error: {first}", first = first);

    let error = QueryError::from_string(&error_string).unwrap();

    assert_eq!(error, QueryError::Decode(first));
}

#[test]
fn revision() {
    let first = "zlkse7u47".to_string();

    let error_string = format!("Versioned error: {first}", first = first);

    let error = QueryError::from_string(&error_string).unwrap();

    assert_eq!(error, QueryError::Revision(first));
}

#[test]
fn corrupted_index() {
    let error_string = "Index is corrupted";

    let error = QueryError::from_string(error_string).unwrap();

    assert_eq!(error, QueryError::CorruptedIndex);
}

#[test]
fn no_index_found_for_match() {
    let value = "zlxk;cu5t".to_string();

    let error_string = format!(
        "There was no suitable full-text index supporting the expression '{value}'",
        value = value
    );

    let error = QueryError::from_string(&error_string).unwrap();

    assert_eq!(error, QueryError::NoIndexFoundForMatch { value });
}

#[test]
fn analyzer_error() {
    let first = ";litr7".to_string();

    let error_string = format!("A value can't be analyzed: {first}", first = first);

    let error = QueryError::from_string(&error_string).unwrap();

    assert_eq!(error, QueryError::AnalyzerError(first));
}

#[test]
fn highlight_error() {
    let first = "0c9sayur".to_string();

    let error_string = format!("A value can't be highlighted: {first}", first = first);

    let error = QueryError::from_string(&error_string).unwrap();

    assert_eq!(error, QueryError::HighlightError(first));
}

#[test]
fn bincode() {
    let first = "48e7d".to_string();

    let error_string = format!("Bincode error: {first}", first = first);

    let error = QueryError::from_string(&error_string).unwrap();

    assert_eq!(error, QueryError::Bincode(first));
}

#[test]
fn fst_error() {
    let first = "894573wo".to_string();

    let error_string = format!("FstError error: {first}", first = first);

    let error = QueryError::from_string(&error_string).unwrap();

    assert_eq!(error, QueryError::FstError(first));
}

#[test]
fn utf_8_error() {
    let first = "89ew74".to_string();

    let error_string = format!("Utf8 error: {first}", first = first);

    let error = QueryError::from_string(&error_string).unwrap();

    assert_eq!(error, QueryError::Utf8Error(first));
}

#[test]
fn feature_not_yet_implemented() {
    let feature = "49786sa".to_string();

    let error_string = format!("Feature not yet implemented: {feature}", feature = feature);

    let error = QueryError::from_string(&error_string).unwrap();

    assert_eq!(error, QueryError::FeatureNotYetImplemented { feature });
}

#[test]
fn duplicated_match_ref() {
    let mr = "*".to_string();

    let error_string = format!("Duplicated Match reference: {mr}", mr = mr);

    let error = QueryError::from_string(&error_string).unwrap();

    assert_eq!(error, QueryError::DuplicatedMatchRef { mr });
}

#[test]
fn timestamp_overflow() {
    let first = "74d".to_string();

    let error_string = format!("Timestamp arithmetic error: {first}", first = first);

    let error = QueryError::from_string(&error_string).unwrap();

    assert_eq!(error, QueryError::TimestampOverflow(first));
}

#[test]
fn internal() {
    let first = "".to_string();

    let error_string = format!("Internal database error: {first}", first = first);

    let error = QueryError::from_string(&error_string).unwrap();

    assert_eq!(error, QueryError::Internal(first));
}

#[test]
fn unimplemented() {
    let first = "587edj".to_string();

    let error_string = format!("Unimplemented functionality: {first}", first = first);

    let error = QueryError::from_string(&error_string).unwrap();

    assert_eq!(error, QueryError::Unimplemented(first));
}

#[test]
fn corrupted_versionstamp_in_key() {
    let first = "yhxzudro".to_string();

    let error_string = format!("Versionstamp in key is corrupted: {first}", first = first);

    let error = QueryError::from_string(&error_string).unwrap();

    assert_eq!(error, QueryError::CorruptedVersionstampInKey(first));
}

#[test]
fn invalid_level() {
    let first = "s4x7i".to_string();

    let error_string = format!("Invalid level '{first}'", first = first);

    let error = QueryError::from_string(&error_string).unwrap();

    assert_eq!(error, QueryError::InvalidLevel(first));
}

#[test]
fn iam_error() {
    let first = "l8x4".to_string();

    let error_string = format!("IAM error: {first}", first = first);

    let error = QueryError::from_string(&error_string).unwrap();

    assert_eq!(error, QueryError::IamError(first));
}

#[test]
fn scripting_not_allowed() {
    let error_string = "Scripting functions are not allowed";

    let error = QueryError::from_string(&error_string).unwrap();

    assert_eq!(error, QueryError::ScriptingNotAllowed);
}

#[test]
fn function_not_allowed() {
    let first = "s4i7o".to_string();

    let error_string = format!(
        "Function '{first}' is not allowed to be executed",
        first = first
    );

    let error = QueryError::from_string(&error_string).unwrap();

    assert_eq!(error, QueryError::FunctionNotAllowed(first));
}

#[test]
fn net_target_not_allowed() {
    let first = "8oe47".to_string();

    let error_string = format!(
        "Access to network target '{first}' is not allowed",
        first = first
    );

    let error = QueryError::from_string(&error_string).unwrap();

    assert_eq!(error, QueryError::NetTargetNotAllowed(first));
}

#[test]
fn deprecated() {
    let error_string = ""; // This can match anything

    let error = QueryError::from_string(&error_string).unwrap();

    assert_eq!(error, QueryError::Deprecated("".to_string()));
}
