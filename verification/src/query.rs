//! Query-building vocabulary and string helpers.
//!
//! The comparison operators and order directions a query filter can
//! carry, with their exact textual forms, plus the small string
//! functions that query assembly leans on: appending a clause, turning
//! a filter key into a bind-variable identifier, and sanitizing an
//! untrusted key down to its first identifier-like run.

use vstd::prelude::*;

use crate::template::is_word_char;
use crate::template::word_char;

verus! {

/// A comparison operator of a query filter.
#[derive(Clone, PartialEq, Eq, Structural, Debug)]
pub enum Operator {
    Eq,
    Ne,
    Gt,
    Ge,
    Lt,
    Le,
    ContainsAny,
    Inside,
}

/// The exact text an operator renders to inside a query.
pub open spec fn op_text(op: Operator) -> Seq<char> {
    match op {
        Operator::Eq => "="@,
        Operator::Ne => "!="@,
        Operator::Gt => ">"@,
        Operator::Ge => ">="@,
        Operator::Lt => "<"@,
        Operator::Le => "<="@,
        Operator::ContainsAny => "CONTAINSANY"@,
        Operator::Inside => "INSIDE"@,
    }
}

/// The operator a comparison token denotes. Only the six comparison
/// tokens are accepted; the array operators have no token form here.
pub open spec fn op_of_text(s: Seq<char>) -> Option<Operator> {
    if s == "="@ {
        Some(Operator::Eq)
    } else if s == "!="@ {
        Some(Operator::Ne)
    } else if s == ">"@ {
        Some(Operator::Gt)
    } else if s == ">="@ {
        Some(Operator::Ge)
    } else if s == "<"@ {
        Some(Operator::Lt)
    } else if s == "<="@ {
        Some(Operator::Le)
    } else {
        None
    }
}

impl Operator {
    /// The operator's textual form.
    pub fn as_str(&self) -> (r: &'static str)
        ensures
            r@ == op_text(*self),
    {
        match self {
            Operator::Eq => "=",
            Operator::Ne => "!=",
            Operator::Gt => ">",
            Operator::Ge => ">=",
            Operator::Lt => "<",
            Operator::Le => "<=",
            Operator::ContainsAny => "CONTAINSANY",
            Operator::Inside => "INSIDE",
        }
    }
}

/// Whether two strings hold the same characters.
pub fn str_eq(a: &str, b: &str) -> (r: bool)
    ensures
        r == (a@ == b@),
{
    let n = a.unicode_len();
    if n != b.unicode_len() {
        return false;
    }
    let mut i: usize = 0;
    while i < n
        invariant
            n == a@.len(),
            n == b@.len(),
            i <= n,
            forall|j: int| 0 <= j < i ==> a@[j] == b@[j],
        decreases n - i,
    {
        if a.get_char(i) != b.get_char(i) {
            return false;
        }
        i = i + 1;
    }
    proof {
        assert(a@ =~= b@);
    }
    true
}

/// Parse a comparison token into its operator.
pub fn parse_operator(s: &str) -> (r: Option<Operator>)
    ensures
        r == op_of_text(s@),
{
    proof {
        reveal_strlit("=");
        reveal_strlit("!=");
        reveal_strlit(">");
        reveal_strlit(">=");
        reveal_strlit("<");
        reveal_strlit("<=");
    }
    if str_eq(s, "=") {
        Some(Operator::Eq)
    } else if str_eq(s, "!=") {
        Some(Operator::Ne)
    } else if str_eq(s, ">") {
        Some(Operator::Gt)
    } else if str_eq(s, ">=") {
        Some(Operator::Ge)
    } else if str_eq(s, "<") {
        Some(Operator::Lt)
    } else if str_eq(s, "<=") {
        Some(Operator::Le)
    } else {
        None
    }
}

/// The direction of an ORDER BY clause.
#[derive(Clone, PartialEq, Eq, Structural, Debug)]
pub enum OrderDir {
    Asc,
    Desc,
}

/// The exact text a direction renders to inside a query.
pub open spec fn dir_text(d: OrderDir) -> Seq<char> {
    match d {
        OrderDir::Asc => "ASC"@,
        OrderDir::Desc => "DESC"@,
    }
}

/// The direction a lowercase token denotes.
pub open spec fn dir_of_text(s: Seq<char>) -> Option<OrderDir> {
    if s == "asc"@ {
        Some(OrderDir::Asc)
    } else if s == "desc"@ {
        Some(OrderDir::Desc)
    } else {
        None
    }
}

impl OrderDir {
    /// The direction's textual form inside a query.
    pub fn as_str(&self) -> (r: &'static str)
        ensures
            r@ == dir_text(*self),
    {
        match self {
            OrderDir::Asc => "ASC",
            OrderDir::Desc => "DESC",
        }
    }
}

/// Parse a lowercase direction token.
pub fn parse_order_dir(s: &str) -> (r: Option<OrderDir>)
    ensures
        r == dir_of_text(s@),
{
    proof {
        reveal_strlit("asc");
        reveal_strlit("desc");
    }
    if str_eq(s, "asc") {
        Some(OrderDir::Asc)
    } else if str_eq(s, "desc") {
        Some(OrderDir::Desc)
    } else {
        None
    }
}

/// Append a clause to a query under construction: a single space, then
/// the clause text.
pub fn push_query_str(query: &mut String, value: &str)
    ensures
        final (query)@ == old(query)@ + " "@ + value@,
{
    query.append(" ");
    query.append(value);
}

/// The bind-variable identifier for a filter key: every `.` becomes `_`
/// and all other characters stay.
pub open spec fn variable_ident_of(s: Seq<char>) -> Seq<char> {
    s.map_values(
        |c: char|
            if c == '.' {
                '_'
            } else {
                c
            },
    )
}

/// Turn a (sanitized, possibly dotted) filter key into the identifier
/// its bound value is named by.
pub fn to_variable_ident(value: &str) -> (r: String)
    ensures
        r@ == variable_ident_of(value@),
{
    proof {
        reveal_strlit("_");
    }
    let n = value.unicode_len();
    let mut out = String::new();
    let mut i: usize = 0;
    while i < n
        invariant
            n == value@.len(),
            i <= n,
            out@ == variable_ident_of(value@.take(i as int)),
        decreases n - i,
    {
        if value.get_char(i) == '.' {
            proof {
                reveal_strlit("_");
            }
            out.append("_");
            assert("_"@ =~= seq!['_']);
        } else {
            let piece = value.substring_char(i, i + 1);
            assert(piece@ =~= seq![value@[i as int]]);
            out.append(piece);
        }
        assert(out@ =~= variable_ident_of(value@.take(i + 1 as int)));
        i = i + 1;
    }
    assert(value@.take(n as int) =~= value@);
    out
}

/// A character that may stay in a sanitized key: a word character or a
/// dot.
pub open spec fn is_key_char(c: char) -> bool {
    is_word_char(c) || c == '.'
}

/// First position in `s` holding a key character; the length when there
/// is none.
pub open spec fn first_key_char(s: Seq<char>, i: int) -> int
    decreases s.len() - i,
{
    if i < 0 || i >= s.len() {
        s.len() as int
    } else if is_key_char(s[i]) {
        i
    } else {
        first_key_char(s, i + 1)
    }
}

/// Length of the run of key characters starting at `i`.
pub open spec fn key_run(s: Seq<char>, i: int) -> int
    decreases s.len() - i,
{
    if i < 0 || i >= s.len() || !is_key_char(s[i]) {
        0
    } else {
        1 + key_run(s, i + 1)
    }
}

/// Reduce an untrusted key to its first identifier-like run: the first
/// maximal run of word characters and dots, or `None` when the key
/// holds no such character at all. Everything before and after the run
/// — quotes, spaces, injection attempts — is discarded.
pub fn sanitize<'a>(value: &'a str) -> (r: Option<&'a str>)
    ensures
        match r {
            Some(sub) => {
                let st = first_key_char(value@, 0);
                st < value@.len() && sub@ == value@.subrange(st, st + key_run(value@, st))
            },
            None => first_key_char(value@, 0) == value@.len(),
        },
{
    let n = value.unicode_len();
    let mut i: usize = 0;
    while i < n && !key_char(value.get_char(i))
        invariant
            n == value@.len(),
            i <= n,
            first_key_char(value@, 0) == first_key_char(value@, i as int),
        decreases n - i,
    {
        assert(first_key_char(value@, i as int) == first_key_char(value@, i + 1 as int));
        i = i + 1;
    }
    if i == n {
        return None;
    }
    let st = i;
    let mut j = st;
    while j < n && key_char(value.get_char(j))
        invariant
            n == value@.len(),
            st <= j <= n,
            key_run(value@, st as int) == (j - st) + key_run(value@, j as int),
        decreases n - j,
    {
        assert(key_run(value@, j as int) == 1 + key_run(value@, j + 1 as int));
        j = j + 1;
    }
    assert(key_run(value@, j as int) == 0);
    Some(value.substring_char(st, j))
}

/// Decide `is_key_char` on a concrete character.
pub fn key_char(c: char) -> (b: bool)
    ensures
        b == is_key_char(c),
{
    word_char(c) || c == '.'
}

} // verus!
