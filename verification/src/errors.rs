//! The structured error catalog and its reconstruction from text.
//!
//! `QueryError` mirrors the errors that the upstream database renders
//! into plain message strings. Each variant declares the template its
//! message was rendered from; `QueryError::from_string` compiles the
//! declarations into a pattern registry, matches the text against the
//! registry in declaration order, and rebuilds the variant from the
//! captured field values. The broad `Deprecated` catch-all is declared
//! last on purpose: declaration order is the only tie-break.

use vstd::prelude::*;

use crate::registry::match_outcome;
use crate::registry::Declaration;
use crate::registry::PatternRegistry;
use crate::template::shape_valid;
use crate::template::FieldShape;
use crate::template::ShapeModel;

verus! {

/// A structured database error, reconstructed from its rendered
/// message.
#[derive(Debug, PartialEq, Clone)]
#[non_exhaustive]
pub enum QueryError {
    Ignore,
    Break,
    Continue,
    Unreachable,
    Thrown(String),
    Ds(String),
    Tx(String),
    TxFailure,
    TxFinished,
    TxReadonly,
    TxConditionNotMet,
    TxKeyAlreadyExists,
    TxKeyTooLarge,
    TxValueTooLarge,
    TxTooLarge,
    NsEmpty,
    DbEmpty,
    QueryEmpty,
    QueryRemaining,
    InvalidAuth,
    UnknownAuth,
    InvalidQuery { line: String, char: String, sql: String },
    InvalidPatch { message: String },
    PatchTest { expected: String, got: String },
    HttpDisabled,
    InvalidParam { name: String },
    InvalidField { line: String, field: String },
    InvalidSplit { line: String, field: String },
    InvalidOrder { line: String, field: String },
    InvalidGroup { line: String, field: String },
    InvalidLimit { value: String },
    InvalidStart { value: String },
    InvalidScript { message: String },
    InvalidFunction { name: String, message: String },
    InvalidArguments { name: String, message: String },
    InvalidUrl(String),
    QueryTimedout,
    QueryCancelled,
    QueryNotExecuted,
    QueryNotExecutedDetail { message: String },
    NsNotAllowed { ns: String },
    DbNotAllowed { db: String },
    NsNotFound { value: String },
    NtNotFound { value: String },
    NlNotFound { value: String },
    DbNotFound { value: String },
    DtNotFound { value: String },
    DlNotFound { value: String },
    FcNotFound { value: String },
    ScNotFound { value: String },
    ClAlreadyExists { value: String },
    NdNotFound { value: String },
    StNotFound { value: String },
    PaNotFound { value: String },
    TbNotFound { value: String },
    LvNotFound { value: String },
    LqNotFound { value: String },
    AzNotFound { value: String },
    IxNotFound { value: String },
    UserRootNotFound { value: String },
    UserNsNotFound { value: String, ns: String },
    UserDbNotFound { value: String, db: String },
    RealtimeDisabled,
    ComputationDepthExceeded,
    InvalidStatementTarget { value: String },
    CreateStatement { value: String },
    UpdateStatement { value: String },
    RelateStatement { value: String },
    DeleteStatement { value: String },
    InsertStatement { value: String },
    LiveStatement { value: String },
    KillStatement { value: String },
    TablePermissions { table: String },
    TableIsView { table: String },
    RecordExists { thing: String },
    IndexExists { thing: String, index: String, value: String },
    FieldCheck { thing: String, value: String, field: String, check: String },
    FieldValue { thing: String, value: String, field: String, check: String },
    IdMismatch { value: String },
    IdInvalid { value: String },
    CoerceTo { from: String, into: String },
    ConvertTo { from: String, into: String },
    LengthInvalid { kind: String, size: String },
    TryAdd(String, String),
    TrySub(String, String),
    TryMul(String, String),
    TryDiv(String, String),
    TryPow(String, String),
    TryNeg(String),
    TryFrom(String, String),
    Http(String),
    Channel(String),
    Io(String),
    Encode(String),
    Decode(String),
    Revision(String),
    CorruptedIndex,
    NoIndexFoundForMatch { value: String },
    AnalyzerError(String),
    HighlightError(String),
    Bincode(String),
    FstError(String),
    Utf8Error(String),
    FeatureNotYetImplemented { feature: String },
    DuplicatedMatchRef { mr: String },
    TimestampOverflow(String),
    Internal(String),
    Unimplemented(String),
    CorruptedVersionstampInKey(String),
    InvalidLevel(String),
    IamError(String),
    ScriptingNotAllowed,
    FunctionNotAllowed(String),
    NetTargetNotAllowed(String),
    Deprecated(String),
}

fn decl_unit(t: &str) -> (d: Declaration)
    ensures
        d@ == (t@, ShapeModel::Unit),
{
    Declaration { template: String::from_str(t), shape: FieldShape::Unit }
}

fn decl_pos(t: &str, n: usize) -> (d: Declaration)
    ensures
        d@ == (t@, ShapeModel::Positional(n as int)),
{
    Declaration { template: String::from_str(t), shape: FieldShape::Positional(n) }
}

fn decl_named1(t: &str, f0: &str) -> (d: Declaration)
    ensures
        d@ == (t@, ShapeModel::Named(seq![f0@])),
{
    let mut names: Vec<String> = Vec::new();
    names.push(String::from_str(f0));
    proof {
        assert(names.deep_view() =~= seq![f0@]);
    }
    Declaration { template: String::from_str(t), shape: FieldShape::Named(names) }
}

fn decl_named2(t: &str, f0: &str, f1: &str) -> (d: Declaration)
    ensures
        d@ == (t@, ShapeModel::Named(seq![f0@, f1@])),
{
    let mut names: Vec<String> = Vec::new();
    names.push(String::from_str(f0));
    names.push(String::from_str(f1));
    proof {
        assert(names.deep_view() =~= seq![f0@, f1@]);
    }
    Declaration { template: String::from_str(t), shape: FieldShape::Named(names) }
}

fn decl_named3(t: &str, f0: &str, f1: &str, f2: &str) -> (d: Declaration)
    ensures
        d@ == (t@, ShapeModel::Named(seq![f0@, f1@, f2@])),
{
    let mut names: Vec<String> = Vec::new();
    names.push(String::from_str(f0));
    names.push(String::from_str(f1));
    names.push(String::from_str(f2));
    proof {
        assert(names.deep_view() =~= seq![f0@, f1@, f2@]);
    }
    Declaration { template: String::from_str(t), shape: FieldShape::Named(names) }
}

fn decl_named4(t: &str, f0: &str, f1: &str, f2: &str, f3: &str) -> (d: Declaration)
    ensures
        d@ == (t@, ShapeModel::Named(seq![f0@, f1@, f2@, f3@])),
{
    let mut names: Vec<String> = Vec::new();
    names.push(String::from_str(f0));
    names.push(String::from_str(f1));
    names.push(String::from_str(f2));
    names.push(String::from_str(f3));
    proof {
        assert(names.deep_view() =~= seq![f0@, f1@, f2@, f3@]);
    }
    Declaration { template: String::from_str(t), shape: FieldShape::Named(names) }
}

/// Catalog declarations 0 through 19.
pub open spec fn cat_a() -> Seq<(Seq<char>, ShapeModel)> {
    seq![
        ("Conditional clause is not truthy"@, ShapeModel::Unit),
        ("Break statement has been reached"@, ShapeModel::Unit),
        ("Continue statement has been reached"@, ShapeModel::Unit),
        ("The database encountered unreachable logic"@, ShapeModel::Unit),
        ("An error occurred: {0}"@, ShapeModel::Positional(1)),
        ("There was a problem with the underlying datastore: {0}"@, ShapeModel::Positional(1)),
        ("There was a problem with a datastore transaction: {0}"@, ShapeModel::Positional(1)),
        ("There was an error when starting a new datastore transaction"@, ShapeModel::Unit),
        ("Couldn't update a finished transaction"@, ShapeModel::Unit),
        ("Couldn't write to a read only transaction"@, ShapeModel::Unit),
        ("Value being checked was not correct"@, ShapeModel::Unit),
        ("The key being inserted already exists"@, ShapeModel::Unit),
        ("Record id or key is too large"@, ShapeModel::Unit),
        ("Record or value is too large"@, ShapeModel::Unit),
        ("Transaction is too large"@, ShapeModel::Unit),
        ("Specify a namespace to use"@, ShapeModel::Unit),
        ("Specify a database to use"@, ShapeModel::Unit),
        ("Specify some SQL code to execute"@, ShapeModel::Unit),
        ("The SQL query was not parsed fully"@, ShapeModel::Unit),
        ("There was a problem with authentication"@, ShapeModel::Unit),
    ]
}

fn declarations_a() -> (d: Vec<Declaration>)
    ensures
        d.deep_view() == cat_a(),
{
    let mut d: Vec<Declaration> = Vec::new();
    d.push(decl_unit("Conditional clause is not truthy"));
    d.push(decl_unit("Break statement has been reached"));
    d.push(decl_unit("Continue statement has been reached"));
    d.push(decl_unit("The database encountered unreachable logic"));
    d.push(decl_pos("An error occurred: {0}", 1));
    d.push(decl_pos("There was a problem with the underlying datastore: {0}", 1));
    d.push(decl_pos("There was a problem with a datastore transaction: {0}", 1));
    d.push(decl_unit("There was an error when starting a new datastore transaction"));
    d.push(decl_unit("Couldn't update a finished transaction"));
    d.push(decl_unit("Couldn't write to a read only transaction"));
    d.push(decl_unit("Value being checked was not correct"));
    d.push(decl_unit("The key being inserted already exists"));
    d.push(decl_unit("Record id or key is too large"));
    d.push(decl_unit("Record or value is too large"));
    d.push(decl_unit("Transaction is too large"));
    d.push(decl_unit("Specify a namespace to use"));
    d.push(decl_unit("Specify a database to use"));
    d.push(decl_unit("Specify some SQL code to execute"));
    d.push(decl_unit("The SQL query was not parsed fully"));
    d.push(decl_unit("There was a problem with authentication"));
    proof {
        assert(d.deep_view() =~= cat_a());
    }
    d
}

/// Catalog declarations 20 through 39.
pub open spec fn cat_b() -> Seq<(Seq<char>, ShapeModel)> {
    seq![
        ("Auth was expected to be set but was unknown"@, ShapeModel::Unit),
        ("Parse error on line {line} at character {char} when parsing '{sql}'"@, ShapeModel::Named(seq!["line"@, "char"@, "sql"@])),
        ("The JSON Patch contains invalid operations. {message}"@, ShapeModel::Named(seq!["message"@])),
        ("Given test operation failed for JSON Patch. Expected `{expected}`, but got `{got}` instead."@, ShapeModel::Named(seq!["expected"@, "got"@])),
        ("Remote HTTP request functions are not enabled"@, ShapeModel::Unit),
        ("Found '{name}' but it is not possible to set a variable with this name"@, ShapeModel::Named(seq!["name"@])),
        ("Found '{field}' in SELECT clause on line {line}, but field is not an aggregate function, and is not present in GROUP BY expression"@, ShapeModel::Named(seq!["line"@, "field"@])),
        ("Found '{field}' in SPLIT ON clause on line {line}, but field is not present in SELECT expression"@, ShapeModel::Named(seq!["line"@, "field"@])),
        ("Found '{field}' in ORDER BY clause on line {line}, but field is not present in SELECT expression"@, ShapeModel::Named(seq!["line"@, "field"@])),
        ("Found '{field}' in GROUP BY clause on line {line}, but field is not present in SELECT expression"@, ShapeModel::Named(seq!["line"@, "field"@])),
        ("Found {value} but the LIMIT clause must evaluate to a positive integer"@, ShapeModel::Named(seq!["value"@])),
        ("Found {value} but the START clause must evaluate to a positive integer"@, ShapeModel::Named(seq!["value"@])),
        ("Problem with embedded script function. {message}"@, ShapeModel::Named(seq!["message"@])),
        ("There was a problem running the {name}() function. {message}"@, ShapeModel::Named(seq!["name"@, "message"@])),
        ("Incorrect arguments for function {name}(). {message}"@, ShapeModel::Named(seq!["name"@, "message"@])),
        ("The URL `{0}` is invalid"@, ShapeModel::Positional(1)),
        ("The query was not executed because it exceeded the timeout"@, ShapeModel::Unit),
        ("The query was not executed due to a cancelled transaction"@, ShapeModel::Unit),
        ("The query was not executed due to a failed transaction"@, ShapeModel::Unit),
        ("The query was not executed due to a failed transaction. {message}"@, ShapeModel::Named(seq!["message"@])),
    ]
}

fn declarations_b() -> (d: Vec<Declaration>)
    ensures
        d.deep_view() == cat_b(),
{
    let mut d: Vec<Declaration> = Vec::new();
    d.push(decl_unit("Auth was expected to be set but was unknown"));
    d.push(decl_named3("Parse error on line {line} at character {char} when parsing '{sql}'", "line", "char", "sql"));
    d.push(decl_named1("The JSON Patch contains invalid operations. {message}", "message"));
    d.push(decl_named2("Given test operation failed for JSON Patch. Expected `{expected}`, but got `{got}` instead.", "expected", "got"));
    d.push(decl_unit("Remote HTTP request functions are not enabled"));
    d.push(decl_named1("Found '{name}' but it is not possible to set a variable with this name", "name"));
    d.push(decl_named2("Found '{field}' in SELECT clause on line {line}, but field is not an aggregate function, and is not present in GROUP BY expression", "line", "field"));
    d.push(decl_named2("Found '{field}' in SPLIT ON clause on line {line}, but field is not present in SELECT expression", "line", "field"));
    d.push(decl_named2("Found '{field}' in ORDER BY clause on line {line}, but field is not present in SELECT expression", "line", "field"));
    d.push(decl_named2("Found '{field}' in GROUP BY clause on line {line}, but field is not present in SELECT expression", "line", "field"));
    d.push(decl_named1("Found {value} but the LIMIT clause must evaluate to a positive integer", "value"));
    d.push(decl_named1("Found {value} but the START clause must evaluate to a positive integer", "value"));
    d.push(decl_named1("Problem with embedded script function. {message}", "message"));
    d.push(decl_named2("There was a problem running the {name}() function. {message}", "name", "message"));
    d.push(decl_named2("Incorrect arguments for function {name}(). {message}", "name", "message"));
    d.push(decl_pos("The URL `{0}` is invalid", 1));
    d.push(decl_unit("The query was not executed because it exceeded the timeout"));
    d.push(decl_unit("The query was not executed due to a cancelled transaction"));
    d.push(decl_unit("The query was not executed due to a failed transaction"));
    d.push(decl_named1("The query was not executed due to a failed transaction. {message}", "message"));
    proof {
        assert(d.deep_view() =~= cat_b());
    }
    d
}

/// Catalog declarations 40 through 59.
pub open spec fn cat_c() -> Seq<(Seq<char>, ShapeModel)> {
    seq![
        ("You don't have permission to change to the {ns} namespace"@, ShapeModel::Named(seq!["ns"@])),
        ("You don't have permission to change to the {db} database"@, ShapeModel::Named(seq!["db"@])),
        ("The namespace '{value}' does not exist"@, ShapeModel::Named(seq!["value"@])),
        ("The namespace token '{value}' does not exist"@, ShapeModel::Named(seq!["value"@])),
        ("The namespace login '{value}' does not exist"@, ShapeModel::Named(seq!["value"@])),
        ("The database '{value}' does not exist"@, ShapeModel::Named(seq!["value"@])),
        ("The database token '{value}' does not exist"@, ShapeModel::Named(seq!["value"@])),
        ("The database login '{value}' does not exist"@, ShapeModel::Named(seq!["value"@])),
        ("The function 'fn::{value}' does not exist"@, ShapeModel::Named(seq!["value"@])),
        ("The scope '{value}' does not exist"@, ShapeModel::Named(seq!["value"@])),
        ("The node '{value}' already exists"@, ShapeModel::Named(seq!["value"@])),
        ("The node '{value}' does not exist"@, ShapeModel::Named(seq!["value"@])),
        ("The scope token '{value}' does not exist"@, ShapeModel::Named(seq!["value"@])),
        ("The param '${value}' does not exist"@, ShapeModel::Named(seq!["value"@])),
        ("The table '{value}' does not exist"@, ShapeModel::Named(seq!["value"@])),
        ("The live query '{value}' does not exist"@, ShapeModel::Named(seq!["value"@])),
        ("The cluster live query '{value}' does not exist"@, ShapeModel::Named(seq!["value"@])),
        ("The analyzer '{value}' does not exist"@, ShapeModel::Named(seq!["value"@])),
        ("The index '{value}' does not exist"@, ShapeModel::Named(seq!["value"@])),
        ("The root user '{value}' does not exist"@, ShapeModel::Named(seq!["value"@])),
    ]
}

fn declarations_c() -> (d: Vec<Declaration>)
    ensures
        d.deep_view() == cat_c(),
{
    let mut d: Vec<Declaration> = Vec::new();
    d.push(decl_named1("You don't have permission to change to the {ns} namespace", "ns"));
    d.push(decl_named1("You don't have permission to change to the {db} database", "db"));
    d.push(decl_named1("The namespace '{value}' does not exist", "value"));
    d.push(decl_named1("The namespace token '{value}' does not exist", "value"));
    d.push(decl_named1("The namespace login '{value}' does not exist", "value"));
    d.push(decl_named1("The database '{value}' does not exist", "value"));
    d.push(decl_named1("The database token '{value}' does not exist", "value"));
    d.push(decl_named1("The database login '{value}' does not exist", "value"));
    d.push(decl_named1("The function 'fn::{value}' does not exist", "value"));
    d.push(decl_named1("The scope '{value}' does not exist", "value"));
    d.push(decl_named1("The node '{value}' already exists", "value"));
    d.push(decl_named1("The node '{value}' does not exist", "value"));
    d.push(decl_named1("The scope token '{value}' does not exist", "value"));
    d.push(decl_named1("The param '${value}' does not exist", "value"));
    d.push(decl_named1("The table '{value}' does not exist", "value"));
    d.push(decl_named1("The live query '{value}' does not exist", "value"));
    d.push(decl_named1("The cluster live query '{value}' does not exist", "value"));
    d.push(decl_named1("The analyzer '{value}' does not exist", "value"));
    d.push(decl_named1("The index '{value}' does not exist", "value"));
    d.push(decl_named1("The root user '{value}' does not exist", "value"));
    proof {
        assert(d.deep_view() =~= cat_c());
    }
    d
}

/// Catalog declarations 60 through 79.
pub open spec fn cat_d() -> Seq<(Seq<char>, ShapeModel)> {
    seq![
        ("The user '{value}' does not exist in the namespace '{ns}'"@, ShapeModel::Named(seq!["value"@, "ns"@])),
        ("The user '{value}' does not exist in the database '{db}'"@, ShapeModel::Named(seq!["value"@, "db"@])),
        ("Unable to perform the realtime query"@, ShapeModel::Unit),
        ("Reached excessive computation depth due to functions, subqueries, or futures"@, ShapeModel::Unit),
        ("Can not execute statement using value '{value}'"@, ShapeModel::Named(seq!["value"@])),
        ("Can not execute CREATE statement using value '{value}'"@, ShapeModel::Named(seq!["value"@])),
        ("Can not execute UPDATE statement using value '{value}'"@, ShapeModel::Named(seq!["value"@])),
        ("Can not execute RELATE statement using value '{value}'"@, ShapeModel::Named(seq!["value"@])),
        ("Can not execute DELETE statement using value '{value}'"@, ShapeModel::Named(seq!["value"@])),
        ("Can not execute INSERT statement using value '{value}'"@, ShapeModel::Named(seq!["value"@])),
        ("Can not execute LIVE statement using value '{value}'"@, ShapeModel::Named(seq!["value"@])),
        ("Can not execute KILL statement using id '{value}'"@, ShapeModel::Named(seq!["value"@])),
        ("You don't have permission to run this query on the `{table}` table"@, ShapeModel::Named(seq!["table"@])),
        ("Unable to write to the `{table}` table while setup as a view"@, ShapeModel::Named(seq!["table"@])),
        ("Database record `{thing}` already exists"@, ShapeModel::Named(seq!["thing"@])),
        ("Database index `{index}` already contains {value}, with record `{thing}`"@, ShapeModel::Named(seq!["thing"@, "index"@, "value"@])),
        ("Found {value} for field `{field}`, with record `{thing}`, but expected a {check}"@, ShapeModel::Named(seq!["thing"@, "value"@, "field"@, "check"@])),
        ("Found {value} for field `{field}`, with record `{thing}`, but field must conform to: {check}"@, ShapeModel::Named(seq!["thing"@, "value"@, "field"@, "check"@])),
        ("Found {value} for the id field, but a specific record has been specified"@, ShapeModel::Named(seq!["value"@])),
        ("Found {value} for the Record ID but this is not a valid id"@, ShapeModel::Named(seq!["value"@])),
    ]
}

fn declarations_d() -> (d: Vec<Declaration>)
    ensures
        d.deep_view() == cat_d(),
{
    let mut d: Vec<Declaration> = Vec::new();
    d.push(decl_named2("The user '{value}' does not exist in the namespace '{ns}'", "value", "ns"));
    d.push(decl_named2("The user '{value}' does not exist in the database '{db}'", "value", "db"));
    d.push(decl_unit("Unable to perform the realtime query"));
    d.push(decl_unit("Reached excessive computation depth due to functions, subqueries, or futures"));
    d.push(decl_named1("Can not execute statement using value '{value}'", "value"));
    d.push(decl_named1("Can not execute CREATE statement using value '{value}'", "value"));
    d.push(decl_named1("Can not execute UPDATE statement using value '{value}'", "value"));
    d.push(decl_named1("Can not execute RELATE statement using value '{value}'", "value"));
    d.push(decl_named1("Can not execute DELETE statement using value '{value}'", "value"));
    d.push(decl_named1("Can not execute INSERT statement using value '{value}'", "value"));
    d.push(decl_named1("Can not execute LIVE statement using value '{value}'", "value"));
    d.push(decl_named1("Can not execute KILL statement using id '{value}'", "value"));
    d.push(decl_named1("You don't have permission to run this query on the `{table}` table", "table"));
    d.push(decl_named1("Unable to write to the `{table}` table while setup as a view", "table"));
    d.push(decl_named1("Database record `{thing}` already exists", "thing"));
    d.push(decl_named3("Database index `{index}` already contains {value}, with record `{thing}`", "thing", "index", "value"));
    d.push(decl_named4("Found {value} for field `{field}`, with record `{thing}`, but expected a {check}", "thing", "value", "field", "check"));
    d.push(decl_named4("Found {value} for field `{field}`, with record `{thing}`, but field must conform to: {check}", "thing", "value", "field", "check"));
    d.push(decl_named1("Found {value} for the id field, but a specific record has been specified", "value"));
    d.push(decl_named1("Found {value} for the Record ID but this is not a valid id", "value"));
    proof {
        assert(d.deep_view() =~= cat_d());
    }
    d
}

/// Catalog declarations 80 through 99.
pub open spec fn cat_e() -> Seq<(Seq<char>, ShapeModel)> {
    seq![
        ("Expected a {into} but found {from}"@, ShapeModel::Named(seq!["from"@, "into"@])),
        ("Expected a {into} but cannot convert {from} into a {into}"@, ShapeModel::Named(seq!["from"@, "into"@])),
        ("Expected a {kind} but the array had {size} items"@, ShapeModel::Named(seq!["kind"@, "size"@])),
        ("Cannot perform addition with '{0}' and '{1}'"@, ShapeModel::Positional(2)),
        ("Cannot perform subtraction with '{0}' and '{1}'"@, ShapeModel::Positional(2)),
        ("Cannot perform multiplication with '{0}' and '{1}'"@, ShapeModel::Positional(2)),
        ("Cannot perform division with '{0}' and '{1}'"@, ShapeModel::Positional(2)),
        ("Cannot raise the value '{0}' with '{1}'"@, ShapeModel::Positional(2)),
        ("Cannot negate the value '{0}'"@, ShapeModel::Positional(1)),
        ("Cannot convert from '{0}' to '{1}'"@, ShapeModel::Positional(2)),
        ("There was an error processing a remote HTTP request: {0}"@, ShapeModel::Positional(1)),
        ("There was an error processing a value in parallel: {0}"@, ShapeModel::Positional(1)),
        ("I/O error: {0}"@, ShapeModel::Positional(1)),
        ("Key encoding error: {0}"@, ShapeModel::Positional(1)),
        ("Key decoding error: {0}"@, ShapeModel::Positional(1)),
        ("Versioned error: {0}"@, ShapeModel::Positional(1)),
        ("Index is corrupted"@, ShapeModel::Unit),
        ("There was no suitable full-text index supporting the expression '{value}'"@, ShapeModel::Named(seq!["value"@])),
        ("A value can't be analyzed: {0}"@, ShapeModel::Positional(1)),
        ("A value can't be highlighted: {0}"@, ShapeModel::Positional(1)),
    ]
}

fn declarations_e() -> (d: Vec<Declaration>)
    ensures
        d.deep_view() == cat_e(),
{
    let mut d: Vec<Declaration> = Vec::new();
    d.push(decl_named2("Expected a {into} but found {from}", "from", "into"));
    d.push(decl_named2("Expected a {into} but cannot convert {from} into a {into}", "from", "into"));
    d.push(decl_named2("Expected a {kind} but the array had {size} items", "kind", "size"));
    d.push(decl_pos("Cannot perform addition with '{0}' and '{1}'", 2));
    d.push(decl_pos("Cannot perform subtraction with '{0}' and '{1}'", 2));
    d.push(decl_pos("Cannot perform multiplication with '{0}' and '{1}'", 2));
    d.push(decl_pos("Cannot perform division with '{0}' and '{1}'", 2));
    d.push(decl_pos("Cannot raise the value '{0}' with '{1}'", 2));
    d.push(decl_pos("Cannot negate the value '{0}'", 1));
    d.push(decl_pos("Cannot convert from '{0}' to '{1}'", 2));
    d.push(decl_pos("There was an error processing a remote HTTP request: {0}", 1));
    d.push(decl_pos("There was an error processing a value in parallel: {0}", 1));
    d.push(decl_pos("I/O error: {0}", 1));
    d.push(decl_pos("Key encoding error: {0}", 1));
    d.push(decl_pos("Key decoding error: {0}", 1));
    d.push(decl_pos("Versioned error: {0}", 1));
    d.push(decl_unit("Index is corrupted"));
    d.push(decl_named1("There was no suitable full-text index supporting the expression '{value}'", "value"));
    d.push(decl_pos("A value can't be analyzed: {0}", 1));
    d.push(decl_pos("A value can't be highlighted: {0}", 1));
    proof {
        assert(d.deep_view() =~= cat_e());
    }
    d
}

/// Catalog declarations 100 through 114.
pub open spec fn cat_f() -> Seq<(Seq<char>, ShapeModel)> {
    seq![
        ("Bincode error: {0}"@, ShapeModel::Positional(1)),
        ("FstError error: {0}"@, ShapeModel::Positional(1)),
        ("Utf8 error: {0}"@, ShapeModel::Positional(1)),
        ("Feature not yet implemented: {feature}"@, ShapeModel::Named(seq!["feature"@])),
        ("Duplicated Match reference: {mr}"@, ShapeModel::Named(seq!["mr"@])),
        ("Timestamp arithmetic error: {0}"@, ShapeModel::Positional(1)),
        ("Internal database error: {0}"@, ShapeModel::Positional(1)),
        ("Unimplemented functionality: {0}"@, ShapeModel::Positional(1)),
        ("Versionstamp in key is corrupted: {0}"@, ShapeModel::Positional(1)),
        ("Invalid level '{0}'"@, ShapeModel::Positional(1)),
        ("IAM error: {0}"@, ShapeModel::Positional(1)),
        ("Scripting functions are not allowed"@, ShapeModel::Unit),
        ("Function '{0}' is not allowed to be executed"@, ShapeModel::Positional(1)),
        ("Access to network target '{0}' is not allowed"@, ShapeModel::Positional(1)),
        ("{0}"@, ShapeModel::Positional(1)),
    ]
}

fn declarations_f() -> (d: Vec<Declaration>)
    ensures
        d.deep_view() == cat_f(),
{
    let mut d: Vec<Declaration> = Vec::new();
    d.push(decl_pos("Bincode error: {0}", 1));
    d.push(decl_pos("FstError error: {0}", 1));
    d.push(decl_pos("Utf8 error: {0}", 1));
    d.push(decl_named1("Feature not yet implemented: {feature}", "feature"));
    d.push(decl_named1("Duplicated Match reference: {mr}", "mr"));
    d.push(decl_pos("Timestamp arithmetic error: {0}", 1));
    d.push(decl_pos("Internal database error: {0}", 1));
    d.push(decl_pos("Unimplemented functionality: {0}", 1));
    d.push(decl_pos("Versionstamp in key is corrupted: {0}", 1));
    d.push(decl_pos("Invalid level '{0}'", 1));
    d.push(decl_pos("IAM error: {0}", 1));
    d.push(decl_unit("Scripting functions are not allowed"));
    d.push(decl_pos("Function '{0}' is not allowed to be executed", 1));
    d.push(decl_pos("Access to network target '{0}' is not allowed", 1));
    d.push(decl_pos("{0}", 1));
    proof {
        assert(d.deep_view() =~= cat_f());
    }
    d
}

/// The full ordered catalog: one declaration per `QueryError` variant,
/// in variant order.
pub open spec fn catalog() -> Seq<(Seq<char>, ShapeModel)> {
    cat_a() + cat_b() + cat_c() + cat_d() + cat_e() + cat_f()
}

/// Every catalog template agrees with its declared shape.
pub open spec fn catalog_ok() -> bool {
    forall|i: int|
        0 <= i < catalog().len() ==> shape_valid((#[trigger] catalog()[i]).0, catalog()[i].1)
}

/// Build the catalog as runtime declarations.
pub fn declarations() -> (d: Vec<Declaration>)
    ensures
        d.deep_view() == catalog(),
{
    let mut d = declarations_a();
    let mut part_b = declarations_b();
    d.append(&mut part_b);
    let mut part_c = declarations_c();
    d.append(&mut part_c);
    let mut part_d = declarations_d();
    d.append(&mut part_d);
    let mut part_e = declarations_e();
    d.append(&mut part_e);
    let mut part_f = declarations_f();
    d.append(&mut part_f);
    proof {
        assert(d.deep_view() =~= catalog());
    }
    d
}

/// Number of fields of the variant at catalog position `i`.
pub open spec fn variant_arity(i: int) -> int {
    if i == 0 {
        0
    } else if i == 1 {
        0
    } else if i == 2 {
        0
    } else if i == 3 {
        0
    } else if i == 4 {
        1
    } else if i == 5 {
        1
    } else if i == 6 {
        1
    } else if i == 7 {
        0
    } else if i == 8 {
        0
    } else if i == 9 {
        0
    } else if i == 10 {
        0
    } else if i == 11 {
        0
    } else if i == 12 {
        0
    } else if i == 13 {
        0
    } else if i == 14 {
        0
    } else if i == 15 {
        0
    } else if i == 16 {
        0
    } else if i == 17 {
        0
    } else if i == 18 {
        0
    } else if i == 19 {
        0
    } else if i == 20 {
        0
    } else if i == 21 {
        3
    } else if i == 22 {
        1
    } else if i == 23 {
        2
    } else if i == 24 {
        0
    } else if i == 25 {
        1
    } else if i == 26 {
        2
    } else if i == 27 {
        2
    } else if i == 28 {
        2
    } else if i == 29 {
        2
    } else if i == 30 {
        1
    } else if i == 31 {
        1
    } else if i == 32 {
        1
    } else if i == 33 {
        2
    } else if i == 34 {
        2
    } else if i == 35 {
        1
    } else if i == 36 {
        0
    } else if i == 37 {
        0
    } else if i == 38 {
        0
    } else if i == 39 {
        1
    } else if i == 40 {
        1
    } else if i == 41 {
        1
    } else if i == 42 {
        1
    } else if i == 43 {
        1
    } else if i == 44 {
        1
    } else if i == 45 {
        1
    } else if i == 46 {
        1
    } else if i == 47 {
        1
    } else if i == 48 {
        1
    } else if i == 49 {
        1
    } else if i == 50 {
        1
    } else if i == 51 {
        1
    } else if i == 52 {
        1
    } else if i == 53 {
        1
    } else if i == 54 {
        1
    } else if i == 55 {
        1
    } else if i == 56 {
        1
    } else if i == 57 {
        1
    } else if i == 58 {
        1
    } else if i == 59 {
        1
    } else if i == 60 {
        2
    } else if i == 61 {
        2
    } else if i == 62 {
        0
    } else if i == 63 {
        0
    } else if i == 64 {
        1
    } else if i == 65 {
        1
    } else if i == 66 {
        1
    } else if i == 67 {
        1
    } else if i == 68 {
        1
    } else if i == 69 {
        1
    } else if i == 70 {
        1
    } else if i == 71 {
        1
    } else if i == 72 {
        1
    } else if i == 73 {
        1
    } else if i == 74 {
        1
    } else if i == 75 {
        3
    } else if i == 76 {
        4
    } else if i == 77 {
        4
    } else if i == 78 {
        1
    } else if i == 79 {
        1
    } else if i == 80 {
        2
    } else if i == 81 {
        2
    } else if i == 82 {
        2
    } else if i == 83 {
        2
    } else if i == 84 {
        2
    } else if i == 85 {
        2
    } else if i == 86 {
        2
    } else if i == 87 {
        2
    } else if i == 88 {
        1
    } else if i == 89 {
        2
    } else if i == 90 {
        1
    } else if i == 91 {
        1
    } else if i == 92 {
        1
    } else if i == 93 {
        1
    } else if i == 94 {
        1
    } else if i == 95 {
        1
    } else if i == 96 {
        0
    } else if i == 97 {
        1
    } else if i == 98 {
        1
    } else if i == 99 {
        1
    } else if i == 100 {
        1
    } else if i == 101 {
        1
    } else if i == 102 {
        1
    } else if i == 103 {
        1
    } else if i == 104 {
        1
    } else if i == 105 {
        1
    } else if i == 106 {
        1
    } else if i == 107 {
        1
    } else if i == 108 {
        1
    } else if i == 109 {
        1
    } else if i == 110 {
        1
    } else if i == 111 {
        0
    } else if i == 112 {
        1
    } else if i == 113 {
        1
    } else if i == 114 {
        1
    } else {
        -1
    }
}

/// `e` is the variant at catalog position `i` carrying the field values
/// `fields`, in field order.
pub open spec fn reconstructs(e: QueryError, i: int, fields: Seq<Seq<char>>) -> bool {
    match e {
        QueryError::Ignore => i == 0 && fields.len() == 0,
        QueryError::Break => i == 1 && fields.len() == 0,
        QueryError::Continue => i == 2 && fields.len() == 0,
        QueryError::Unreachable => i == 3 && fields.len() == 0,
        QueryError::Thrown(v0) => i == 4 && fields.len() == 1 && v0@ == fields[0],
        QueryError::Ds(v0) => i == 5 && fields.len() == 1 && v0@ == fields[0],
        QueryError::Tx(v0) => i == 6 && fields.len() == 1 && v0@ == fields[0],
        QueryError::TxFailure => i == 7 && fields.len() == 0,
        QueryError::TxFinished => i == 8 && fields.len() == 0,
        QueryError::TxReadonly => i == 9 && fields.len() == 0,
        QueryError::TxConditionNotMet => i == 10 && fields.len() == 0,
        QueryError::TxKeyAlreadyExists => i == 11 && fields.len() == 0,
        QueryError::TxKeyTooLarge => i == 12 && fields.len() == 0,
        QueryError::TxValueTooLarge => i == 13 && fields.len() == 0,
        QueryError::TxTooLarge => i == 14 && fields.len() == 0,
        QueryError::NsEmpty => i == 15 && fields.len() == 0,
        QueryError::DbEmpty => i == 16 && fields.len() == 0,
        QueryError::QueryEmpty => i == 17 && fields.len() == 0,
        QueryError::QueryRemaining => i == 18 && fields.len() == 0,
        QueryError::InvalidAuth => i == 19 && fields.len() == 0,
        QueryError::UnknownAuth => i == 20 && fields.len() == 0,
        QueryError::InvalidQuery { line: v0, char: v1, sql: v2 } => i == 21 && fields.len() == 3 && v0@ == fields[0] && v1@ == fields[1] && v2@ == fields[2],
        QueryError::InvalidPatch { message: v0 } => i == 22 && fields.len() == 1 && v0@ == fields[0],
        QueryError::PatchTest { expected: v0, got: v1 } => i == 23 && fields.len() == 2 && v0@ == fields[0] && v1@ == fields[1],
        QueryError::HttpDisabled => i == 24 && fields.len() == 0,
        QueryError::InvalidParam { name: v0 } => i == 25 && fields.len() == 1 && v0@ == fields[0],
        QueryError::InvalidField { line: v0, field: v1 } => i == 26 && fields.len() == 2 && v0@ == fields[0] && v1@ == fields[1],
        QueryError::InvalidSplit { line: v0, field: v1 } => i == 27 && fields.len() == 2 && v0@ == fields[0] && v1@ == fields[1],
        QueryError::InvalidOrder { line: v0, field: v1 } => i == 28 && fields.len() == 2 && v0@ == fields[0] && v1@ == fields[1],
        QueryError::InvalidGroup { line: v0, field: v1 } => i == 29 && fields.len() == 2 && v0@ == fields[0] && v1@ == fields[1],
        QueryError::InvalidLimit { value: v0 } => i == 30 && fields.len() == 1 && v0@ == fields[0],
        QueryError::InvalidStart { value: v0 } => i == 31 && fields.len() == 1 && v0@ == fields[0],
        QueryError::InvalidScript { message: v0 } => i == 32 && fields.len() == 1 && v0@ == fields[0],
        QueryError::InvalidFunction { name: v0, message: v1 } => i == 33 && fields.len() == 2 && v0@ == fields[0] && v1@ == fields[1],
        QueryError::InvalidArguments { name: v0, message: v1 } => i == 34 && fields.len() == 2 && v0@ == fields[0] && v1@ == fields[1],
        QueryError::InvalidUrl(v0) => i == 35 && fields.len() == 1 && v0@ == fields[0],
        QueryError::QueryTimedout => i == 36 && fields.len() == 0,
        QueryError::QueryCancelled => i == 37 && fields.len() == 0,
        QueryError::QueryNotExecuted => i == 38 && fields.len() == 0,
        QueryError::QueryNotExecutedDetail { message: v0 } => i == 39 && fields.len() == 1 && v0@ == fields[0],
        QueryError::NsNotAllowed { ns: v0 } => i == 40 && fields.len() == 1 && v0@ == fields[0],
        QueryError::DbNotAllowed { db: v0 } => i == 41 && fields.len() == 1 && v0@ == fields[0],
        QueryError::NsNotFound { value: v0 } => i == 42 && fields.len() == 1 && v0@ == fields[0],
        QueryError::NtNotFound { value: v0 } => i == 43 && fields.len() == 1 && v0@ == fields[0],
        QueryError::NlNotFound { value: v0 } => i == 44 && fields.len() == 1 && v0@ == fields[0],
        QueryError::DbNotFound { value: v0 } => i == 45 && fields.len() == 1 && v0@ == fields[0],
        QueryError::DtNotFound { value: v0 } => i == 46 && fields.len() == 1 && v0@ == fields[0],
        QueryError::DlNotFound { value: v0 } => i == 47 && fields.len() == 1 && v0@ == fields[0],
        QueryError::FcNotFound { value: v0 } => i == 48 && fields.len() == 1 && v0@ == fields[0],
        QueryError::ScNotFound { value: v0 } => i == 49 && fields.len() == 1 && v0@ == fields[0],
        QueryError::ClAlreadyExists { value: v0 } => i == 50 && fields.len() == 1 && v0@ == fields[0],
        QueryError::NdNotFound { value: v0 } => i == 51 && fields.len() == 1 && v0@ == fields[0],
        QueryError::StNotFound { value: v0 } => i == 52 && fields.len() == 1 && v0@ == fields[0],
        QueryError::PaNotFound { value: v0 } => i == 53 && fields.len() == 1 && v0@ == fields[0],
        QueryError::TbNotFound { value: v0 } => i == 54 && fields.len() == 1 && v0@ == fields[0],
        QueryError::LvNotFound { value: v0 } => i == 55 && fields.len() == 1 && v0@ == fields[0],
        QueryError::LqNotFound { value: v0 } => i == 56 && fields.len() == 1 && v0@ == fields[0],
        QueryError::AzNotFound { value: v0 } => i == 57 && fields.len() == 1 && v0@ == fields[0],
        QueryError::IxNotFound { value: v0 } => i == 58 && fields.len() == 1 && v0@ == fields[0],
        QueryError::UserRootNotFound { value: v0 } => i == 59 && fields.len() == 1 && v0@ == fields[0],
        QueryError::UserNsNotFound { value: v0, ns: v1 } => i == 60 && fields.len() == 2 && v0@ == fields[0] && v1@ == fields[1],
        QueryError::UserDbNotFound { value: v0, db: v1 } => i == 61 && fields.len() == 2 && v0@ == fields[0] && v1@ == fields[1],
        QueryError::RealtimeDisabled => i == 62 && fields.len() == 0,
        QueryError::ComputationDepthExceeded => i == 63 && fields.len() == 0,
        QueryError::InvalidStatementTarget { value: v0 } => i == 64 && fields.len() == 1 && v0@ == fields[0],
        QueryError::CreateStatement { value: v0 } => i == 65 && fields.len() == 1 && v0@ == fields[0],
        QueryError::UpdateStatement { value: v0 } => i == 66 && fields.len() == 1 && v0@ == fields[0],
        QueryError::RelateStatement { value: v0 } => i == 67 && fields.len() == 1 && v0@ == fields[0],
        QueryError::DeleteStatement { value: v0 } => i == 68 && fields.len() == 1 && v0@ == fields[0],
        QueryError::InsertStatement { value: v0 } => i == 69 && fields.len() == 1 && v0@ == fields[0],
        QueryError::LiveStatement { value: v0 } => i == 70 && fields.len() == 1 && v0@ == fields[0],
        QueryError::KillStatement { value: v0 } => i == 71 && fields.len() == 1 && v0@ == fields[0],
        QueryError::TablePermissions { table: v0 } => i == 72 && fields.len() == 1 && v0@ == fields[0],
        QueryError::TableIsView { table: v0 } => i == 73 && fields.len() == 1 && v0@ == fields[0],
        QueryError::RecordExists { thing: v0 } => i == 74 && fields.len() == 1 && v0@ == fields[0],
        QueryError::IndexExists { thing: v0, index: v1, value: v2 } => i == 75 && fields.len() == 3 && v0@ == fields[0] && v1@ == fields[1] && v2@ == fields[2],
        QueryError::FieldCheck { thing: v0, value: v1, field: v2, check: v3 } => i == 76 && fields.len() == 4 && v0@ == fields[0] && v1@ == fields[1] && v2@ == fields[2] && v3@ == fields[3],
        QueryError::FieldValue { thing: v0, value: v1, field: v2, check: v3 } => i == 77 && fields.len() == 4 && v0@ == fields[0] && v1@ == fields[1] && v2@ == fields[2] && v3@ == fields[3],
        QueryError::IdMismatch { value: v0 } => i == 78 && fields.len() == 1 && v0@ == fields[0],
        QueryError::IdInvalid { value: v0 } => i == 79 && fields.len() == 1 && v0@ == fields[0],
        QueryError::CoerceTo { from: v0, into: v1 } => i == 80 && fields.len() == 2 && v0@ == fields[0] && v1@ == fields[1],
        QueryError::ConvertTo { from: v0, into: v1 } => i == 81 && fields.len() == 2 && v0@ == fields[0] && v1@ == fields[1],
        QueryError::LengthInvalid { kind: v0, size: v1 } => i == 82 && fields.len() == 2 && v0@ == fields[0] && v1@ == fields[1],
        QueryError::TryAdd(v0, v1) => i == 83 && fields.len() == 2 && v0@ == fields[0] && v1@ == fields[1],
        QueryError::TrySub(v0, v1) => i == 84 && fields.len() == 2 && v0@ == fields[0] && v1@ == fields[1],
        QueryError::TryMul(v0, v1) => i == 85 && fields.len() == 2 && v0@ == fields[0] && v1@ == fields[1],
        QueryError::TryDiv(v0, v1) => i == 86 && fields.len() == 2 && v0@ == fields[0] && v1@ == fields[1],
        QueryError::TryPow(v0, v1) => i == 87 && fields.len() == 2 && v0@ == fields[0] && v1@ == fields[1],
        QueryError::TryNeg(v0) => i == 88 && fields.len() == 1 && v0@ == fields[0],
        QueryError::TryFrom(v0, v1) => i == 89 && fields.len() == 2 && v0@ == fields[0] && v1@ == fields[1],
        QueryError::Http(v0) => i == 90 && fields.len() == 1 && v0@ == fields[0],
        QueryError::Channel(v0) => i == 91 && fields.len() == 1 && v0@ == fields[0],
        QueryError::Io(v0) => i == 92 && fields.len() == 1 && v0@ == fields[0],
        QueryError::Encode(v0) => i == 93 && fields.len() == 1 && v0@ == fields[0],
        QueryError::Decode(v0) => i == 94 && fields.len() == 1 && v0@ == fields[0],
        QueryError::Revision(v0) => i == 95 && fields.len() == 1 && v0@ == fields[0],
        QueryError::CorruptedIndex => i == 96 && fields.len() == 0,
        QueryError::NoIndexFoundForMatch { value: v0 } => i == 97 && fields.len() == 1 && v0@ == fields[0],
        QueryError::AnalyzerError(v0) => i == 98 && fields.len() == 1 && v0@ == fields[0],
        QueryError::HighlightError(v0) => i == 99 && fields.len() == 1 && v0@ == fields[0],
        QueryError::Bincode(v0) => i == 100 && fields.len() == 1 && v0@ == fields[0],
        QueryError::FstError(v0) => i == 101 && fields.len() == 1 && v0@ == fields[0],
        QueryError::Utf8Error(v0) => i == 102 && fields.len() == 1 && v0@ == fields[0],
        QueryError::FeatureNotYetImplemented { feature: v0 } => i == 103 && fields.len() == 1 && v0@ == fields[0],
        QueryError::DuplicatedMatchRef { mr: v0 } => i == 104 && fields.len() == 1 && v0@ == fields[0],
        QueryError::TimestampOverflow(v0) => i == 105 && fields.len() == 1 && v0@ == fields[0],
        QueryError::Internal(v0) => i == 106 && fields.len() == 1 && v0@ == fields[0],
        QueryError::Unimplemented(v0) => i == 107 && fields.len() == 1 && v0@ == fields[0],
        QueryError::CorruptedVersionstampInKey(v0) => i == 108 && fields.len() == 1 && v0@ == fields[0],
        QueryError::InvalidLevel(v0) => i == 109 && fields.len() == 1 && v0@ == fields[0],
        QueryError::IamError(v0) => i == 110 && fields.len() == 1 && v0@ == fields[0],
        QueryError::ScriptingNotAllowed => i == 111 && fields.len() == 0,
        QueryError::FunctionNotAllowed(v0) => i == 112 && fields.len() == 1 && v0@ == fields[0],
        QueryError::NetTargetNotAllowed(v0) => i == 113 && fields.len() == 1 && v0@ == fields[0],
        QueryError::Deprecated(v0) => i == 114 && fields.len() == 1 && v0@ == fields[0],
    }
}

/// No variant reconstructs under a wrong field count.
proof fn lemma_no_reconstruction(i: int, fields: Seq<Seq<char>>)
    requires
        fields.len() != variant_arity(i),
    ensures
        forall|e: QueryError| !(#[trigger] reconstructs(e, i, fields)),
{
}

fn reconstruct_a(i: usize, fields: &Vec<String>) -> (r: Option<QueryError>)
    requires
        0 <= i < 20,
    ensures
        match r {
            Some(e) => reconstructs(e, i as int, fields.deep_view()),
            None => fields.deep_view().len() != variant_arity(i as int),
        },
{
    let n = fields.len();
    if i == 0 {
        if n == 0 {
            return Some(QueryError::Ignore);
        }
    } else if i == 1 {
        if n == 0 {
            return Some(QueryError::Break);
        }
    } else if i == 2 {
        if n == 0 {
            return Some(QueryError::Continue);
        }
    } else if i == 3 {
        if n == 0 {
            return Some(QueryError::Unreachable);
        }
    } else if i == 4 {
        if n == 1 {
            return Some(QueryError::Thrown(fields[0].clone()));
        }
    } else if i == 5 {
        if n == 1 {
            return Some(QueryError::Ds(fields[0].clone()));
        }
    } else if i == 6 {
        if n == 1 {
            return Some(QueryError::Tx(fields[0].clone()));
        }
    } else if i == 7 {
        if n == 0 {
            return Some(QueryError::TxFailure);
        }
    } else if i == 8 {
        if n == 0 {
            return Some(QueryError::TxFinished);
        }
    } else if i == 9 {
        if n == 0 {
            return Some(QueryError::TxReadonly);
        }
    } else if i == 10 {
        if n == 0 {
            return Some(QueryError::TxConditionNotMet);
        }
    } else if i == 11 {
        if n == 0 {
            return Some(QueryError::TxKeyAlreadyExists);
        }
    } else if i == 12 {
        if n == 0 {
            return Some(QueryError::TxKeyTooLarge);
        }
    } else if i == 13 {
        if n == 0 {
            return Some(QueryError::TxValueTooLarge);
        }
    } else if i == 14 {
        if n == 0 {
            return Some(QueryError::TxTooLarge);
        }
    } else if i == 15 {
        if n == 0 {
            return Some(QueryError::NsEmpty);
        }
    } else if i == 16 {
        if n == 0 {
            return Some(QueryError::DbEmpty);
        }
    } else if i == 17 {
        if n == 0 {
            return Some(QueryError::QueryEmpty);
        }
    } else if i == 18 {
        if n == 0 {
            return Some(QueryError::QueryRemaining);
        }
    } else if i == 19 {
        if n == 0 {
            return Some(QueryError::InvalidAuth);
        }
    }
    None
}

fn reconstruct_b(i: usize, fields: &Vec<String>) -> (r: Option<QueryError>)
    requires
        20 <= i < 40,
    ensures
        match r {
            Some(e) => reconstructs(e, i as int, fields.deep_view()),
            None => fields.deep_view().len() != variant_arity(i as int),
        },
{
    let n = fields.len();
    if i == 20 {
        if n == 0 {
            return Some(QueryError::UnknownAuth);
        }
    } else if i == 21 {
        if n == 3 {
            return Some(QueryError::InvalidQuery { line: fields[0].clone(), char: fields[1].clone(), sql: fields[2].clone() });
        }
    } else if i == 22 {
        if n == 1 {
            return Some(QueryError::InvalidPatch { message: fields[0].clone() });
        }
    } else if i == 23 {
        if n == 2 {
            return Some(QueryError::PatchTest { expected: fields[0].clone(), got: fields[1].clone() });
        }
    } else if i == 24 {
        if n == 0 {
            return Some(QueryError::HttpDisabled);
        }
    } else if i == 25 {
        if n == 1 {
            return Some(QueryError::InvalidParam { name: fields[0].clone() });
        }
    } else if i == 26 {
        if n == 2 {
            return Some(QueryError::InvalidField { line: fields[0].clone(), field: fields[1].clone() });
        }
    } else if i == 27 {
        if n == 2 {
            return Some(QueryError::InvalidSplit { line: fields[0].clone(), field: fields[1].clone() });
        }
    } else if i == 28 {
        if n == 2 {
            return Some(QueryError::InvalidOrder { line: fields[0].clone(), field: fields[1].clone() });
        }
    } else if i == 29 {
        if n == 2 {
            return Some(QueryError::InvalidGroup { line: fields[0].clone(), field: fields[1].clone() });
        }
    } else if i == 30 {
        if n == 1 {
            return Some(QueryError::InvalidLimit { value: fields[0].clone() });
        }
    } else if i == 31 {
        if n == 1 {
            return Some(QueryError::InvalidStart { value: fields[0].clone() });
        }
    } else if i == 32 {
        if n == 1 {
            return Some(QueryError::InvalidScript { message: fields[0].clone() });
        }
    } else if i == 33 {
        if n == 2 {
            return Some(QueryError::InvalidFunction { name: fields[0].clone(), message: fields[1].clone() });
        }
    } else if i == 34 {
        if n == 2 {
            return Some(QueryError::InvalidArguments { name: fields[0].clone(), message: fields[1].clone() });
        }
    } else if i == 35 {
        if n == 1 {
            return Some(QueryError::InvalidUrl(fields[0].clone()));
        }
    } else if i == 36 {
        if n == 0 {
            return Some(QueryError::QueryTimedout);
        }
    } else if i == 37 {
        if n == 0 {
            return Some(QueryError::QueryCancelled);
        }
    } else if i == 38 {
        if n == 0 {
            return Some(QueryError::QueryNotExecuted);
        }
    } else if i == 39 {
        if n == 1 {
            return Some(QueryError::QueryNotExecutedDetail { message: fields[0].clone() });
        }
    }
    None
}

fn reconstruct_c(i: usize, fields: &Vec<String>) -> (r: Option<QueryError>)
    requires
        40 <= i < 60,
    ensures
        match r {
            Some(e) => reconstructs(e, i as int, fields.deep_view()),
            None => fields.deep_view().len() != variant_arity(i as int),
        },
{
    let n = fields.len();
    if i == 40 {
        if n == 1 {
            return Some(QueryError::NsNotAllowed { ns: fields[0].clone() });
        }
    } else if i == 41 {
        if n == 1 {
            return Some(QueryError::DbNotAllowed { db: fields[0].clone() });
        }
    } else if i == 42 {
        if n == 1 {
            return Some(QueryError::NsNotFound { value: fields[0].clone() });
        }
    } else if i == 43 {
        if n == 1 {
            return Some(QueryError::NtNotFound { value: fields[0].clone() });
        }
    } else if i == 44 {
        if n == 1 {
            return Some(QueryError::NlNotFound { value: fields[0].clone() });
        }
    } else if i == 45 {
        if n == 1 {
            return Some(QueryError::DbNotFound { value: fields[0].clone() });
        }
    } else if i == 46 {
        if n == 1 {
            return Some(QueryError::DtNotFound { value: fields[0].clone() });
        }
    } else if i == 47 {
        if n == 1 {
            return Some(QueryError::DlNotFound { value: fields[0].clone() });
        }
    } else if i == 48 {
        if n == 1 {
            return Some(QueryError::FcNotFound { value: fields[0].clone() });
        }
    } else if i == 49 {
        if n == 1 {
            return Some(QueryError::ScNotFound { value: fields[0].clone() });
        }
    } else if i == 50 {
        if n == 1 {
            return Some(QueryError::ClAlreadyExists { value: fields[0].clone() });
        }
    } else if i == 51 {
        if n == 1 {
            return Some(QueryError::NdNotFound { value: fields[0].clone() });
        }
    } else if i == 52 {
        if n == 1 {
            return Some(QueryError::StNotFound { value: fields[0].clone() });
        }
    } else if i == 53 {
        if n == 1 {
            return Some(QueryError::PaNotFound { value: fields[0].clone() });
        }
    } else if i == 54 {
        if n == 1 {
            return Some(QueryError::TbNotFound { value: fields[0].clone() });
        }
    } else if i == 55 {
        if n == 1 {
            return Some(QueryError::LvNotFound { value: fields[0].clone() });
        }
    } else if i == 56 {
        if n == 1 {
            return Some(QueryError::LqNotFound { value: fields[0].clone() });
        }
    } else if i == 57 {
        if n == 1 {
            return Some(QueryError::AzNotFound { value: fields[0].clone() });
        }
    } else if i == 58 {
        if n == 1 {
            return Some(QueryError::IxNotFound { value: fields[0].clone() });
        }
    } else if i == 59 {
        if n == 1 {
            return Some(QueryError::UserRootNotFound { value: fields[0].clone() });
        }
    }
    None
}

fn reconstruct_d(i: usize, fields: &Vec<String>) -> (r: Option<QueryError>)
    requires
        60 <= i < 80,
    ensures
        match r {
            Some(e) => reconstructs(e, i as int, fields.deep_view()),
            None => fields.deep_view().len() != variant_arity(i as int),
        },
{
    let n = fields.len();
    if i == 60 {
        if n == 2 {
            return Some(QueryError::UserNsNotFound { value: fields[0].clone(), ns: fields[1].clone() });
        }
    } else if i == 61 {
        if n == 2 {
            return Some(QueryError::UserDbNotFound { value: fields[0].clone(), db: fields[1].clone() });
        }
    } else if i == 62 {
        if n == 0 {
            return Some(QueryError::RealtimeDisabled);
        }
    } else if i == 63 {
        if n == 0 {
            return Some(QueryError::ComputationDepthExceeded);
        }
    } else if i == 64 {
        if n == 1 {
            return Some(QueryError::InvalidStatementTarget { value: fields[0].clone() });
        }
    } else if i == 65 {
        if n == 1 {
            return Some(QueryError::CreateStatement { value: fields[0].clone() });
        }
    } else if i == 66 {
        if n == 1 {
            return Some(QueryError::UpdateStatement { value: fields[0].clone() });
        }
    } else if i == 67 {
        if n == 1 {
            return Some(QueryError::RelateStatement { value: fields[0].clone() });
        }
    } else if i == 68 {
        if n == 1 {
            return Some(QueryError::DeleteStatement { value: fields[0].clone() });
        }
    } else if i == 69 {
        if n == 1 {
            return Some(QueryError::InsertStatement { value: fields[0].clone() });
        }
    } else if i == 70 {
        if n == 1 {
            return Some(QueryError::LiveStatement { value: fields[0].clone() });
        }
    } else if i == 71 {
        if n == 1 {
            return Some(QueryError::KillStatement { value: fields[0].clone() });
        }
    } else if i == 72 {
        if n == 1 {
            return Some(QueryError::TablePermissions { table: fields[0].clone() });
        }
    } else if i == 73 {
        if n == 1 {
            return Some(QueryError::TableIsView { table: fields[0].clone() });
        }
    } else if i == 74 {
        if n == 1 {
            return Some(QueryError::RecordExists { thing: fields[0].clone() });
        }
    } else if i == 75 {
        if n == 3 {
            return Some(QueryError::IndexExists { thing: fields[0].clone(), index: fields[1].clone(), value: fields[2].clone() });
        }
    } else if i == 76 {
        if n == 4 {
            return Some(QueryError::FieldCheck { thing: fields[0].clone(), value: fields[1].clone(), field: fields[2].clone(), check: fields[3].clone() });
        }
    } else if i == 77 {
        if n == 4 {
            return Some(QueryError::FieldValue { thing: fields[0].clone(), value: fields[1].clone(), field: fields[2].clone(), check: fields[3].clone() });
        }
    } else if i == 78 {
        if n == 1 {
            return Some(QueryError::IdMismatch { value: fields[0].clone() });
        }
    } else if i == 79 {
        if n == 1 {
            return Some(QueryError::IdInvalid { value: fields[0].clone() });
        }
    }
    None
}

fn reconstruct_e(i: usize, fields: &Vec<String>) -> (r: Option<QueryError>)
    requires
        80 <= i < 100,
    ensures
        match r {
            Some(e) => reconstructs(e, i as int, fields.deep_view()),
            None => fields.deep_view().len() != variant_arity(i as int),
        },
{
    let n = fields.len();
    if i == 80 {
        if n == 2 {
            return Some(QueryError::CoerceTo { from: fields[0].clone(), into: fields[1].clone() });
        }
    } else if i == 81 {
        if n == 2 {
            return Some(QueryError::ConvertTo { from: fields[0].clone(), into: fields[1].clone() });
        }
    } else if i == 82 {
        if n == 2 {
            return Some(QueryError::LengthInvalid { kind: fields[0].clone(), size: fields[1].clone() });
        }
    } else if i == 83 {
        if n == 2 {
            return Some(QueryError::TryAdd(fields[0].clone(), fields[1].clone()));
        }
    } else if i == 84 {
        if n == 2 {
            return Some(QueryError::TrySub(fields[0].clone(), fields[1].clone()));
        }
    } else if i == 85 {
        if n == 2 {
            return Some(QueryError::TryMul(fields[0].clone(), fields[1].clone()));
        }
    } else if i == 86 {
        if n == 2 {
            return Some(QueryError::TryDiv(fields[0].clone(), fields[1].clone()));
        }
    } else if i == 87 {
        if n == 2 {
            return Some(QueryError::TryPow(fields[0].clone(), fields[1].clone()));
        }
    } else if i == 88 {
        if n == 1 {
            return Some(QueryError::TryNeg(fields[0].clone()));
        }
    } else if i == 89 {
        if n == 2 {
            return Some(QueryError::TryFrom(fields[0].clone(), fields[1].clone()));
        }
    } else if i == 90 {
        if n == 1 {
            return Some(QueryError::Http(fields[0].clone()));
        }
    } else if i == 91 {
        if n == 1 {
            return Some(QueryError::Channel(fields[0].clone()));
        }
    } else if i == 92 {
        if n == 1 {
            return Some(QueryError::Io(fields[0].clone()));
        }
    } else if i == 93 {
        if n == 1 {
            return Some(QueryError::Encode(fields[0].clone()));
        }
    } else if i == 94 {
        if n == 1 {
            return Some(QueryError::Decode(fields[0].clone()));
        }
    } else if i == 95 {
        if n == 1 {
            return Some(QueryError::Revision(fields[0].clone()));
        }
    } else if i == 96 {
        if n == 0 {
            return Some(QueryError::CorruptedIndex);
        }
    } else if i == 97 {
        if n == 1 {
            return Some(QueryError::NoIndexFoundForMatch { value: fields[0].clone() });
        }
    } else if i == 98 {
        if n == 1 {
            return Some(QueryError::AnalyzerError(fields[0].clone()));
        }
    } else if i == 99 {
        if n == 1 {
            return Some(QueryError::HighlightError(fields[0].clone()));
        }
    }
    None
}

fn reconstruct_f(i: usize, fields: &Vec<String>) -> (r: Option<QueryError>)
    requires
        100 <= i < 115,
    ensures
        match r {
            Some(e) => reconstructs(e, i as int, fields.deep_view()),
            None => fields.deep_view().len() != variant_arity(i as int),
        },
{
    let n = fields.len();
    if i == 100 {
        if n == 1 {
            return Some(QueryError::Bincode(fields[0].clone()));
        }
    } else if i == 101 {
        if n == 1 {
            return Some(QueryError::FstError(fields[0].clone()));
        }
    } else if i == 102 {
        if n == 1 {
            return Some(QueryError::Utf8Error(fields[0].clone()));
        }
    } else if i == 103 {
        if n == 1 {
            return Some(QueryError::FeatureNotYetImplemented { feature: fields[0].clone() });
        }
    } else if i == 104 {
        if n == 1 {
            return Some(QueryError::DuplicatedMatchRef { mr: fields[0].clone() });
        }
    } else if i == 105 {
        if n == 1 {
            return Some(QueryError::TimestampOverflow(fields[0].clone()));
        }
    } else if i == 106 {
        if n == 1 {
            return Some(QueryError::Internal(fields[0].clone()));
        }
    } else if i == 107 {
        if n == 1 {
            return Some(QueryError::Unimplemented(fields[0].clone()));
        }
    } else if i == 108 {
        if n == 1 {
            return Some(QueryError::CorruptedVersionstampInKey(fields[0].clone()));
        }
    } else if i == 109 {
        if n == 1 {
            return Some(QueryError::InvalidLevel(fields[0].clone()));
        }
    } else if i == 110 {
        if n == 1 {
            return Some(QueryError::IamError(fields[0].clone()));
        }
    } else if i == 111 {
        if n == 0 {
            return Some(QueryError::ScriptingNotAllowed);
        }
    } else if i == 112 {
        if n == 1 {
            return Some(QueryError::FunctionNotAllowed(fields[0].clone()));
        }
    } else if i == 113 {
        if n == 1 {
            return Some(QueryError::NetTargetNotAllowed(fields[0].clone()));
        }
    } else if i == 114 {
        if n == 1 {
            return Some(QueryError::Deprecated(fields[0].clone()));
        }
    }
    None
}

/// Rebuild the variant at catalog position `i` from its field values;
/// `None` when no variant at that position takes that many fields.
pub fn reconstruct(i: usize, fields: &Vec<String>) -> (r: Option<QueryError>)
    ensures
        match r {
            Some(e) => reconstructs(e, i as int, fields.deep_view()),
            None => forall|e: QueryError| !(#[trigger] reconstructs(e, i as int, fields.deep_view())),
        },
{
    let r = if i < 20 {
        reconstruct_a(i, fields)
    } else if i < 40 {
        reconstruct_b(i, fields)
    } else if i < 60 {
        reconstruct_c(i, fields)
    } else if i < 80 {
        reconstruct_d(i, fields)
    } else if i < 100 {
        reconstruct_e(i, fields)
    } else if i < 115 {
        reconstruct_f(i, fields)
    } else {
        None
    };
    proof {
        match r {
            None => {
                lemma_no_reconstruction(i as int, fields.deep_view());
            },
            _ => {},
        }
    }
    r
}

/// The parse outcome the catalog prescribes for `s`: the first matching
/// declaration and its field values. (If the catalog failed to compile
/// nothing could be matched; the declaration tests exercise every entry,
/// so that case does not arise in practice.)
pub open spec fn spec_from_string(s: Seq<char>) -> Option<(int, Seq<Seq<char>>)> {
    if catalog_ok() {
        match_outcome(catalog(), s)
    } else {
        None
    }
}

/// Whether the whole catalog compiles, decided by compiling it. The
/// result equals the spec-level `catalog_ok()`, so one successful call
/// witnesses that `spec_from_string` is in its matching branch.
pub fn catalog_compiles() -> (b: bool)
    ensures
        b == catalog_ok(),
{
    let decls = declarations();
    match PatternRegistry::build(&decls) {
        Ok(_) => true,
        Err(_) => false,
    }
}

impl QueryError {
    /// Reconstruct a structured error from its rendered message: the
    /// first catalog declaration, in declaration order, whose template
    /// matches the whole of `string` decides the variant, and its
    /// captured spans become the field values. `None` exactly when no
    /// template matches — an unrecognized message, not a failure.
    pub fn from_string(string: &str) -> (r: Option<QueryError>)
        ensures
            match spec_from_string(string@) {
                Some((i, fields)) => match r {
                    Some(e) => reconstructs(e, i, fields),
                    None => forall|e: QueryError| !(#[trigger] reconstructs(e, i, fields)),
                },
                None => r is None,
            },
    {
        let decls = declarations();
        match PatternRegistry::build(&decls) {
            Err(_) => {
                assert(!catalog_ok());
                None
            },
            Ok(reg) => {
                assert(catalog_ok());
                match reg.match_text(string) {
                    None => None,
                    Some(sv) => reconstruct(sv.variant, &sv.fields),
                }
            },
        }
    }
}

} // verus!
