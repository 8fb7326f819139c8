//! Reconstruction of each catalog message, with the exact rendered
//! text and the exact expected variant and field values.

use surreal_error_parser::QueryError;

#[test]
fn ignore() {
    let error_string = "Conditional clause is not truthy";

    let error = QueryError::from_string(error_string).unwrap();

    assert_eq!(error, QueryError::Ignore);
}

#[test]
fn break_reached() {
    let error_string = "Break statement has been reached";

    let error = QueryError::from_string(error_string).unwrap();

    assert_eq!(error, QueryError::Break);
}

#[test]
fn continue_reached() {
    let error_string = "Continue statement has been reached";

    let error = QueryError::from_string(error_string).unwrap();

    assert_eq!(error, QueryError::Continue);
}

#[test]
fn unreachable() {
    let error_string = "The database encountered unreachable logic";

    let error = QueryError::from_string(error_string).unwrap();

    assert_eq!(error, QueryError::Unreachable);
}

#[test]
fn thrown() {
    let message = "error message".to_string();

    let error_string = format!("An error occurred: {}", message);

    let error = QueryError::from_string(&error_string).unwrap();

    assert_eq!(error, QueryError::Thrown(message));
}

#[test]
fn ds() {
    let message = "error message".to_string();

    let error_string = format!(
        "There was a problem with the underlying datastore: {}",
        message
    );

    let error = QueryError::from_string(&error_string).unwrap();

    assert_eq!(error, QueryError::Ds(message));
}

#[test]
fn tx() {
    let message = "error message".to_string();

    let error_string = format!(
        "There was a problem with a datastore transaction: {}",
        message
    );

    let error = QueryError::from_string(&error_string).unwrap();

    assert_eq!(error, QueryError::Tx(message));
}

#[test]
fn tx_failure() {
    let error_string = "There was an error when starting a new datastore transaction";

    let error = QueryError::from_string(error_string).unwrap();

    assert_eq!(error, QueryError::TxFailure);
}

#[test]
fn tx_finished() {
    let error_string = "Couldn't update a finished transaction";

    let error = QueryError::from_string(error_string).unwrap();

    assert_eq!(error, QueryError::TxFinished);
}

#[test]
fn tx_readonly() {
    let error_string = "Couldn't write to a read only transaction";

    let error = QueryError::from_string(error_string).unwrap();

    assert_eq!(error, QueryError::TxReadonly);
}

#[test]
fn tx_condition_not_met() {
    let error_string = "Value being checked was not correct";

    let error = QueryError::from_string(error_string).unwrap();

    assert_eq!(error, QueryError::TxConditionNotMet);
}

#[test]
fn tx_key_already_exists() {
    let error_string = "The key being inserted already exists";

    let error = QueryError::from_string(error_string).unwrap();

    assert_eq!(error, QueryError::TxKeyAlreadyExists);
}

#[test]
fn tx_key_too_large() {
    let error_string = "Record id or key is too large";

    let error = QueryError::from_string(error_string).unwrap();

    assert_eq!(error, QueryError::TxKeyTooLarge);
}

#[test]
fn tx_value_too_large() {
    let error_string = "Record or value is too large";

    let error = QueryError::from_string(error_string).unwrap();

    assert_eq!(error, QueryError::TxValueTooLarge);
}

#[test]
fn tx_too_large() {
    let error_string = "Transaction is too large";

    let error = QueryError::from_string(error_string).unwrap();

    assert_eq!(error, QueryError::TxTooLarge);
}

#[test]
fn ns_empty() {
    let error_string = "Specify a namespace to use";

    let error = QueryError::from_string(error_string).unwrap();

    assert_eq!(error, QueryError::NsEmpty);
}

#[test]
fn db_empty() {
    let error_string = "Specify a database to use";

    let error = QueryError::from_string(error_string).unwrap();

    assert_eq!(error, QueryError::DbEmpty);
}

#[test]
fn query_empty() {
    let error_string = "Specify some SQL code to execute";

    let error = QueryError::from_string(error_string).unwrap();

    assert_eq!(error, QueryError::QueryEmpty);
}

#[test]
fn query_remaining() {
    let error_string = "The SQL query was not parsed fully";

    let error = QueryError::from_string(error_string).unwrap();

    assert_eq!(error, QueryError::QueryRemaining);
}

#[test]
fn invalid_auth() {
    let error_string = "There was a problem with authentication";

    let error = QueryError::from_string(error_string).unwrap();

    assert_eq!(error, QueryError::InvalidAuth);
}

#[test]
fn unknown_auth() {
    let error_string = "Auth was expected to be set but was unknown";

    let error = QueryError::from_string(error_string).unwrap();

    assert_eq!(error, QueryError::UnknownAuth);
}

#[test]
fn invalid_query() {
    let line = "line".to_string();
    let char = "char".to_string();
    let sql = "sql query".to_string();

    let error_string = format!(
        "Parse error on line {line} at character {char} when parsing '{sql}'",
        line = line,
        char = char,
        sql = sql
    );

    let error = QueryError::from_string(&error_string).unwrap();

    assert_eq!(error, QueryError::InvalidQuery { line, char, sql });
}

#[test]
fn invalid_patch() {
    let message = "unexpected ',' at line 1 column 2".to_string();

    let error_string = format!("The JSON Patch contains invalid operations. {}", message);

    let error = QueryError::from_string(&error_string).unwrap();

    assert_eq!(error, QueryError::InvalidPatch { message });
}

#[test]
fn patch_test() {
    let expected = "expected result".to_string();
    let got = "the issue".to_string();

    let error_string =
          format!(
              "Given test operation failed for JSON Patch. Expected `{expected}`, but got `{got}` instead.",
              expected = expected, got = got);

    let error = QueryError::from_string(&error_string).unwrap();

    assert_eq!(error, QueryError::PatchTest { expected, got });
}

#[test]
fn http_disabled() {
    let error_string = "Remote HTTP request functions are not enabled";

    let error = QueryError::from_string(error_string).unwrap();

    assert_eq!(error, QueryError::HttpDisabled);
}

#[test]
fn invalid_param() {
    let name = "a name".to_string();

    let error_string = format!(
        "Found '{name}' but it is not possible to set a variable with this name",
        name = name
    );

    let error = QueryError::from_string(&error_string).unwrap();

    assert_eq!(error, QueryError::InvalidParam { name });
}

#[test]
fn invalid_field() {
    let line = "89".to_string();
    let field = "a field".to_string();

    let error_string = format!("Found '{field}' in SELECT clause on line {line}, but field is not an aggregate function, and is not present in GROUP BY expression", field = field, line = line);

    let error = QueryError::from_string(&error_string).unwrap();

    assert_eq!(error, QueryError::InvalidField { line, field });
}

#[test]
fn invalid_split() {
    let line = "1000".to_string();
    let field = "name".to_string();

    let error_string = format!("Found '{field}' in SPLIT ON clause on line {line}, but field is not present in SELECT expression", field = field, line = line);

    let error = QueryError::from_string(&error_string).unwrap();

    assert_eq!(error, QueryError::InvalidSplit { line, field });
}

#[test]
fn invalid_order() {
    let line = "301".to_string();
    let field = "a field".to_string();

    let error_string = format!("Found '{field}' in ORDER BY clause on line {line}, but field is not present in SELECT expression", line = line, field = field);

    let error = QueryError::from_string(&error_string).unwrap();

    assert_eq!(error, QueryError::InvalidOrder { line, field });
}

#[test]
fn invalid_group() {
    let line = "1000".to_string();
    let field = "name".to_string();

    let error_string = format!("Found '{field}' in GROUP BY clause on line {line}, but field is not present in SELECT expression", line = line, field = field);

    let error = QueryError::from_string(&error_string).unwrap();

    assert_eq!(error, QueryError::InvalidGroup { line, field });
}

#[test]
fn invalid_limit() {
    let value = "-1".to_string();

    let error_string = format!(
        "Found {value} but the LIMIT clause must evaluate to a positive integer",
        value = value
    );

    let error = QueryError::from_string(&error_string).unwrap();

    assert_eq!(error, QueryError::InvalidLimit { value });
}

#[test]
fn invalid_start() {
    let value = "20.1".to_string();

    let error_string = format!(
        "Found {value} but the START clause must evaluate to a positive integer",
        value = value
    );

    let error = QueryError::from_string(&error_string).unwrap();

    assert_eq!(error, QueryError::InvalidStart { value });
}

#[test]
fn invalid_script() {
    let message = "error message".to_string();

    let error_string = format!(
        "Problem with embedded script function. {message}",
        message = message
    );

    let error = QueryError::from_string(&error_string).unwrap();

    assert_eq!(error, QueryError::InvalidScript { message });
}

#[test]
fn invalid_function() {
    let message = "error message".to_string();
    let name = "function_name".to_string();

    let error_string = format!(
        "There was a problem running the {name}() function. {message}",
        message = message,
        name = name
    );

    let error = QueryError::from_string(&error_string).unwrap();

    assert_eq!(error, QueryError::InvalidFunction { name, message });
}

#[test]
fn invalid_arguments() {
    let name = "function_name".to_string();
    let message = "error message".to_string();

    let error_string = format!(
        "Incorrect arguments for function {name}(). {message}",
        name = name,
        message = message
    );

    let error = QueryError::from_string(&error_string).unwrap();

    assert_eq!(error, QueryError::InvalidArguments { name, message });
}

#[test]
fn invalid_url() {
    let url = "an invalid url".to_string();

    let error_string = format!("The URL `{url}` is invalid", url = url);

    let error = QueryError::from_string(&error_string).unwrap();

    assert_eq!(error, QueryError::InvalidUrl(url));
}

#[test]
fn query_timedout() {
    let error_string = "The query was not executed because it exceeded the timeout";

    let error = QueryError::from_string(error_string).unwrap();

    assert_eq!(error, QueryError::QueryTimedout);
}

#[test]
fn query_cancelled() {
    let error_string = "The query was not executed due to a cancelled transaction";

    let error = QueryError::from_string(error_string).unwrap();

    assert_eq!(error, QueryError::QueryCancelled);
}

#[test]
fn query_not_executed() {
    let error_string = "The query was not executed due to a failed transaction";

    let error = QueryError::from_string(error_string).unwrap();

    assert_eq!(error, QueryError::QueryNotExecuted);
}

#[test]
fn query_not_executed_detail() {
    let message = "error message".to_string();

    let error_string = format!(
        "The query was not executed due to a failed transaction. {message}",
        message = message
    );

    let error = QueryError::from_string(&error_string).unwrap();

    assert_eq!(error, QueryError::QueryNotExecutedDetail { message });
}
