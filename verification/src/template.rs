//! Templates and their compiled form.
//!
//! A template is literal text with embedded placeholders. A placeholder is
//! `{` followed by one or more word characters (ASCII letters, digits or
//! `_`) followed by `}`; the enclosed token names either a field (named
//! shapes) or a zero-based field index (positional shapes). Compilation
//! checks the tokens against the declared field shape and produces a
//! sequence of pattern segments plus a map from field position to capture
//! slot.

use vstd::prelude::*;

verus! {

/// How a variant's payload is structured: no fields, `n` index-addressed
/// fields, or a set of name-addressed fields.
pub enum FieldShape {
    Unit,
    Positional(usize),
    Named(Vec<String>),
}

/// Mathematical model of a [`FieldShape`].
pub enum ShapeModel {
    Unit,
    Positional(int),
    Named(Seq<Seq<char>>),
}

impl View for FieldShape {
    type V = ShapeModel;

    open spec fn view(&self) -> ShapeModel {
        match self {
            FieldShape::Unit => ShapeModel::Unit,
            FieldShape::Positional(n) => ShapeModel::Positional(*n as int),
            FieldShape::Named(names) => ShapeModel::Named(names.deep_view()),
        }
    }
}

/// Number of fields a shape declares.
pub open spec fn arity(s: ShapeModel) -> int {
    match s {
        ShapeModel::Unit => 0,
        ShapeModel::Positional(n) => n,
        ShapeModel::Named(names) => names.len() as int,
    }
}

/// One segment of a compiled pattern: a literal character that the text
/// must contain at that point, a capturing wildcard, or a non-capturing
/// wildcard (a repeated named placeholder after its first occurrence).
#[derive(Clone, Copy, PartialEq, Eq, Structural, Debug)]
pub enum Segment {
    Lit(char),
    Cap,
    Wild,
}

/// Word characters are ASCII letters, digits and `_`; they are the only
/// characters allowed in a placeholder token.
pub open spec fn is_word_char(c: char) -> bool {
    let u = c as u32;
    (97 <= u && u <= 122) || (65 <= u && u <= 90) || (48 <= u && u <= 57) || u == 95
}

/// Length of the run of word characters starting at position `i`.
pub open spec fn word_run(t: Seq<char>, i: int) -> int
    decreases t.len() - i,
{
    if i < 0 || i >= t.len() || !is_word_char(t[i]) {
        0
    } else {
        1 + word_run(t, i + 1)
    }
}

/// A placeholder starts at position `i`: `{`, a nonempty word-character
/// run, then `}`.
pub open spec fn hole_at(t: Seq<char>, i: int) -> bool {
    &&& 0 <= i < t.len()
    &&& t[i] == '{'
    &&& word_run(t, i + 1) >= 1
    &&& i + 1 + word_run(t, i + 1) < t.len()
    &&& t[i + 1 + word_run(t, i + 1)] == '}'
}

/// The token inside the placeholder starting at `i`.
pub open spec fn hole_token(t: Seq<char>, i: int) -> Seq<char> {
    t.subrange(i + 1, i + 1 + word_run(t, i + 1))
}

/// Position just past the closing `}` of the placeholder starting at `i`.
pub open spec fn hole_end(t: Seq<char>, i: int) -> int {
    i + word_run(t, i + 1) + 2
}

/// All placeholder tokens of `t` from position `i` on, left to right.
pub open spec fn tokens_from(t: Seq<char>, i: int) -> Seq<Seq<char>>
    decreases t.len() - i,
{
    if i < 0 || i >= t.len() {
        Seq::empty()
    } else if hole_at(t, i) {
        seq![hole_token(t, i)] + tokens_from(t, hole_end(t, i))
    } else {
        tokens_from(t, i + 1)
    }
}

/// All placeholder tokens of template `t`, left to right.
pub open spec fn tokens_of(t: Seq<char>) -> Seq<Seq<char>> {
    tokens_from(t, 0)
}

/// The literal segment for the template character at `i`.
pub open spec fn lit_of(t: Seq<char>, i: int) -> Segment {
    Segment::Lit(t[i])
}

/// Pattern segments of `t` from position `i` on. `seen` holds the tokens
/// of the placeholders already passed: a repeated token matches but does
/// not capture, so only the first occurrence becomes a capture slot.
pub open spec fn segs_from(t: Seq<char>, i: int, seen: Seq<Seq<char>>) -> Seq<Segment>
    decreases t.len() - i,
{
    if i < 0 || i >= t.len() {
        Seq::empty()
    } else if hole_at(t, i) {
        let tok = hole_token(t, i);
        let s = if seen.contains(tok) {
            Segment::Wild
        } else {
            Segment::Cap
        };
        seq![s] + segs_from(t, hole_end(t, i), seen.push(tok))
    } else {
        seq![lit_of(t, i)] + segs_from(t, i + 1, seen)
    }
}

/// The full segment sequence a template compiles to.
pub open spec fn template_segs(t: Seq<char>) -> Seq<Segment> {
    segs_from(t, 0, Seq::empty())
}

/// Tokens of the capturing placeholders of `t` from position `i` on, in
/// capture-slot order (first occurrences only).
pub open spec fn caps_from(t: Seq<char>, i: int, seen: Seq<Seq<char>>) -> Seq<Seq<char>>
    decreases t.len() - i,
{
    if i < 0 || i >= t.len() {
        Seq::empty()
    } else if hole_at(t, i) {
        let tok = hole_token(t, i);
        if seen.contains(tok) {
            caps_from(t, hole_end(t, i), seen.push(tok))
        } else {
            seq![tok] + caps_from(t, hole_end(t, i), seen.push(tok))
        }
    } else {
        caps_from(t, i + 1, seen)
    }
}

/// Capture-slot tokens of template `t`, in slot order.
pub open spec fn cap_tokens(t: Seq<char>) -> Seq<Seq<char>> {
    caps_from(t, 0, Seq::empty())
}

/// Why a template and its declared shape do not agree. Raised only while
/// compiling a template, never while matching text.
#[derive(Clone, Copy, PartialEq, Eq, Structural, Debug)]
pub enum ShapeMismatch {
    /// A unit-shaped template contains a placeholder.
    UnitHasPlaceholders,
    /// A positional template does not reference each of the `n` field
    /// indices exactly once.
    ArityMismatch,
    /// A positional template token is not a decimal index below `n`.
    IndexOutOfRange,
    /// A named template omits a declared field.
    MissingField,
    /// A named template references an undeclared field.
    UnknownField,
}

/// ASCII decimal digit.
pub open spec fn is_digit(c: char) -> bool {
    let u = c as u32;
    48 <= u && u <= 57
}

/// A nonempty, all-digit token.
pub open spec fn is_digits(s: Seq<char>) -> bool {
    s.len() >= 1 && forall|i: int| 0 <= i < s.len() ==> is_digit(#[trigger] s[i])
}

/// Numeric value of a digit string, most significant digit first.
pub open spec fn digits_val(s: Seq<char>) -> int
    decreases s.len(),
{
    if s.len() == 0 {
        0
    } else {
        digits_val(s.drop_last()) * 10 + (s.last() as u32 - 48)
    }
}

/// A token that is usable as an index into a positional shape with `n`
/// fields.
pub open spec fn pos_token_ok(tok: Seq<char>, n: int) -> bool {
    is_digits(tok) && digits_val(tok) < n
}

/// Some token in `xs` has numeric value `v`.
pub open spec fn value_covered(xs: Seq<Seq<char>>, v: int) -> bool {
    exists|j: int| 0 <= j < xs.len() && digits_val(#[trigger] xs[j]) == v
}

/// Every declared field name occurs among the template's tokens.
pub open spec fn named_covers(t: Seq<char>, names: Seq<Seq<char>>) -> bool {
    forall|f: int| 0 <= f < names.len() ==> tokens_of(t).contains(#[trigger] names[f])
}

/// Every template token is a declared field name.
pub open spec fn named_known(t: Seq<char>, names: Seq<Seq<char>>) -> bool {
    forall|j: int| 0 <= j < tokens_of(t).len() ==> names.contains(#[trigger] tokens_of(t)[j])
}

/// Whether template `t` agrees with shape `s`: a unit template has no
/// placeholders; a positional template references every index below `n`
/// exactly once (the tokens are a bijection onto the fields); a named
/// template references exactly the declared field names (each at least
/// once).
pub open spec fn shape_valid(t: Seq<char>, s: ShapeModel) -> bool {
    match s {
        ShapeModel::Unit => tokens_of(t).len() == 0,
        ShapeModel::Positional(n) => {
            let toks = tokens_of(t);
            &&& toks.len() == n
            &&& forall|j: int| 0 <= j < toks.len() ==> pos_token_ok(#[trigger] toks[j], n)
            &&& forall|j1: int, j2: int|
                0 <= j1 < j2 < toks.len() ==> digits_val(toks[j1]) != digits_val(toks[j2])
            &&& forall|f: int| 0 <= f < n ==> #[trigger] value_covered(toks, f)
        },
        ShapeModel::Named(names) => named_covers(t, names) && named_known(t, names),
    }
}

/// The error compilation reports for an invalid template, by priority:
/// meaningful only when `shape_valid` fails.
pub open spec fn mismatch_of(t: Seq<char>, s: ShapeModel) -> ShapeMismatch {
    match s {
        ShapeModel::Unit => ShapeMismatch::UnitHasPlaceholders,
        ShapeModel::Positional(n) => {
            let toks = tokens_of(t);
            if toks.len() != n {
                ShapeMismatch::ArityMismatch
            } else if exists|j: int| 0 <= j < toks.len() && !pos_token_ok(#[trigger] toks[j], n) {
                ShapeMismatch::IndexOutOfRange
            } else {
                ShapeMismatch::ArityMismatch
            }
        },
        ShapeModel::Named(names) => {
            if !named_covers(t, names) {
                ShapeMismatch::MissingField
            } else {
                ShapeMismatch::UnknownField
            }
        },
    }
}

/// First position of token `x` in `xs`.
pub open spec fn index_of_tok(xs: Seq<Seq<char>>, x: Seq<char>) -> int
    decreases xs.len(),
{
    if xs.len() == 0 {
        0
    } else if xs[0] == x {
        0
    } else {
        1 + index_of_tok(xs.drop_first(), x)
    }
}

/// First position in `xs` of a token with numeric value `v`.
pub open spec fn index_of_val(xs: Seq<Seq<char>>, v: int) -> int
    decreases xs.len(),
{
    if xs.len() == 0 {
        0
    } else if digits_val(xs[0]) == v {
        0
    } else {
        1 + index_of_val(xs.drop_first(), v)
    }
}

/// Which capture slot fills each field, in field order: field `f` of a
/// positional shape is filled by the slot of the token with value `f`;
/// field `f` of a named shape by the slot of its name. (For a valid
/// positional template every token captures, so slot order is token
/// order.)
pub open spec fn cap_map(t: Seq<char>, s: ShapeModel) -> Seq<int> {
    match s {
        ShapeModel::Unit => Seq::empty(),
        ShapeModel::Positional(n) => Seq::new(
            n as nat,
            |f: int| index_of_val(tokens_of(t), f),
        ),
        ShapeModel::Named(names) => Seq::new(
            names.len(),
            |f: int| index_of_tok(cap_tokens(t), names[f]),
        ),
    }
}

/// Membership in a token list extended by one element.
pub proof fn lemma_contains_push(xs: Seq<Seq<char>>, v: Seq<char>, x: Seq<char>)
    ensures
        xs.push(v).contains(x) <==> (xs.contains(x) || v == x),
{
    if xs.contains(x) {
        let i = choose|i: int| 0 <= i < xs.len() && xs[i] == x;
        assert(xs.push(v)[i] == x);
    }
    if v == x {
        assert(xs.push(v)[xs.len() as int] == x);
    }
    if xs.push(v).contains(x) {
        let i = choose|i: int| 0 <= i < xs.push(v).len() && xs.push(v)[i] == x;
        if i < xs.len() {
            assert(xs[i] == x);
        }
    }
}

/// Membership in a token list with one element in front.
pub proof fn lemma_contains_cons(v: Seq<char>, xs: Seq<Seq<char>>, x: Seq<char>)
    ensures
        (seq![v] + xs).contains(x) <==> (v == x || xs.contains(x)),
{
    let c = seq![v] + xs;
    if xs.contains(x) {
        let i = choose|i: int| 0 <= i < xs.len() && xs[i] == x;
        assert(c[i + 1] == x);
    }
    if v == x {
        assert(c[0] == x);
    }
    if c.contains(x) {
        let i = choose|i: int| 0 <= i < c.len() && c[i] == x;
        if i >= 1 {
            assert(xs[i - 1] == x);
        }
    }
}

/// Each capture slot of the compiled segments carries one capture token.
pub proof fn lemma_cap_count_caps(t: Seq<char>, i: int, seen: Seq<Seq<char>>)
    ensures
        crate::matching::cap_count(segs_from(t, i, seen)) == caps_from(t, i, seen).len(),
    decreases t.len() - i,
{
    if i < 0 || i >= t.len() {
    } else if hole_at(t, i) {
        let tok = hole_token(t, i);
        lemma_cap_count_caps(t, hole_end(t, i), seen.push(tok));
        let s = if seen.contains(tok) {
            Segment::Wild
        } else {
            Segment::Cap
        };
        let rest = segs_from(t, hole_end(t, i), seen.push(tok));
        let whole = seq![s] + rest;
        assert(whole.len() == 1 + rest.len());
        assert(whole[0] == s);
        assert(whole.drop_first() =~= rest);
        assert(segs_from(t, i, seen) == whole);
    } else {
        lemma_cap_count_caps(t, i + 1, seen);
        let rest = segs_from(t, i + 1, seen);
        let c0 = lit_of(t, i);
        let whole = seq![c0] + rest;
        assert(whole.len() == 1 + rest.len());
        assert(whole[0] == c0);
        assert(whole.drop_first() =~= rest);
        assert(segs_from(t, i, seen) == whole);
    }
}

/// A token is a capture token exactly when it occurs in the template and
/// was not already seen.
pub proof fn lemma_caps_membership(t: Seq<char>, i: int, seen: Seq<Seq<char>>, x: Seq<char>)
    ensures
        caps_from(t, i, seen).contains(x) <==> (tokens_from(t, i).contains(x) && !seen.contains(
            x,
        )),
    decreases t.len() - i,
{
    if i < 0 || i >= t.len() {
        assert(!caps_from(t, i, seen).contains(x));
        assert(!tokens_from(t, i).contains(x));
    } else if hole_at(t, i) {
        let tok = hole_token(t, i);
        let e = hole_end(t, i);
        lemma_caps_membership(t, e, seen.push(tok), x);
        lemma_contains_push(seen, tok, x);
        lemma_contains_cons(tok, tokens_from(t, e), x);
        if !seen.contains(tok) {
            lemma_contains_cons(tok, caps_from(t, e, seen.push(tok)), x);
        }
    } else {
        lemma_caps_membership(t, i + 1, seen, x);
    }
}

/// With pairwise distinct tokens none of which was seen, every
/// placeholder captures: the capture tokens are exactly the tokens.
pub proof fn lemma_caps_eq_tokens_distinct(t: Seq<char>, i: int, seen: Seq<Seq<char>>)
    requires
        forall|j1: int, j2: int|
            0 <= j1 < j2 < tokens_from(t, i).len() ==> tokens_from(t, i)[j1] != tokens_from(
                t,
                i,
            )[j2],
        forall|j: int|
            0 <= j < tokens_from(t, i).len() ==> !seen.contains(#[trigger] tokens_from(t, i)[j]),
    ensures
        caps_from(t, i, seen) == tokens_from(t, i),
    decreases t.len() - i,
{
    if i < 0 || i >= t.len() {
        assert(caps_from(t, i, seen) =~= tokens_from(t, i));
    } else if hole_at(t, i) {
        let tok = hole_token(t, i);
        let e = hole_end(t, i);
        let rest = tokens_from(t, e);
        assert(tokens_from(t, i) == seq![tok] + rest);
        assert(tokens_from(t, i)[0] == tok);
        assert(forall|j: int| 0 <= j < rest.len() ==> rest[j] == tokens_from(t, i)[j + 1]);
        assert(!seen.contains(tok));
        assert forall|j: int| 0 <= j < rest.len() implies !seen.push(tok).contains(
            #[trigger] rest[j],
        ) by {
            lemma_contains_push(seen, tok, rest[j]);
        }
        lemma_caps_eq_tokens_distinct(t, e, seen.push(tok));
        assert(caps_from(t, i, seen) =~= tokens_from(t, i));
    } else {
        assert(tokens_from(t, i) == tokens_from(t, i + 1));
        lemma_caps_eq_tokens_distinct(t, i + 1, seen);
    }
}

/// `index_of_tok` is the first position of its token.
pub proof fn lemma_index_of_tok_first(xs: Seq<Seq<char>>, x: Seq<char>, j: int)
    requires
        0 <= j < xs.len(),
        xs[j] == x,
        forall|k: int| 0 <= k < j ==> xs[k] != x,
    ensures
        index_of_tok(xs, x) == j,
    decreases xs.len(),
{
    if xs[0] == x {
        assert(j == 0);
    } else {
        assert(xs.drop_first()[j - 1] == x);
        assert(forall|k: int| 0 <= k < j - 1 ==> xs.drop_first()[k] == xs[k + 1]);
        lemma_index_of_tok_first(xs.drop_first(), x, j - 1);
    }
}

/// `index_of_val` is the first position of a token with its value.
pub proof fn lemma_index_of_val_first(xs: Seq<Seq<char>>, v: int, j: int)
    requires
        0 <= j < xs.len(),
        digits_val(xs[j]) == v,
        forall|k: int| 0 <= k < j ==> digits_val(#[trigger] xs[k]) != v,
    ensures
        index_of_val(xs, v) == j,
    decreases xs.len(),
{
    if digits_val(xs[0]) == v {
        assert(j == 0);
    } else {
        assert(xs.drop_first()[j - 1] == xs[j]);
        assert(forall|k: int| 0 <= k < j - 1 ==> xs.drop_first()[k] == xs[k + 1]);
        lemma_index_of_val_first(xs.drop_first(), v, j - 1);
    }
}

/// A digit string has a nonnegative value.
pub proof fn lemma_digits_val_nonneg(s: Seq<char>)
    requires
        forall|i: int| 0 <= i < s.len() ==> is_digit(#[trigger] s[i]),
    ensures
        digits_val(s) >= 0,
    decreases s.len(),
{
    if s.len() > 0 {
        assert(forall|i: int| 0 <= i < s.drop_last().len() ==> s.drop_last()[i] == s[i]);
        lemma_digits_val_nonneg(s.drop_last());
        assert(is_digit(s.last()));
    }
}

/// A digit string is worth at least any of its prefixes.
pub proof fn lemma_digits_prefix_le(s: Seq<char>, i: int, j: int)
    requires
        0 <= i <= j <= s.len(),
        forall|k: int| 0 <= k < s.len() ==> is_digit(#[trigger] s[k]),
    ensures
        digits_val(s.take(i)) <= digits_val(s.take(j)),
    decreases j - i,
{
    if i < j {
        lemma_digits_prefix_le(s, i, j - 1);
        assert(s.take(j).drop_last() =~= s.take(j - 1));
        assert(s.take(j).last() == s[j - 1]);
        assert(forall|k: int| 0 <= k < s.take(j - 1).len() ==> s.take(j - 1)[k] == s[k]);
        lemma_digits_val_nonneg(s.take(j - 1));
        assert(is_digit(s[j - 1]));
        assert(digits_val(s.take(j)) == digits_val(s.take(j - 1)) * 10 + (s[j - 1] as u32 - 48));
    }
}

/// Decide `is_digit` on a concrete character.
pub fn digit_char(c: char) -> (b: bool)
    ensures
        b == is_digit(c),
{
    let u = c as u32;
    48 <= u && u <= 57
}

/// Parse a token as a decimal index: `Some` exactly when the token is a
/// nonempty digit string whose value fits in `usize`.
pub fn parse_index(tok: &String) -> (r: Option<usize>)
    ensures
        match r {
            Some(v) => is_digits(tok@) && digits_val(tok@) == v as int,
            None => !is_digits(tok@) || digits_val(tok@) > usize::MAX as int,
        },
{
    let s = tok.as_str();
    let n = s.unicode_len();
    if n == 0 {
        return None;
    }
    let mut acc: usize = 0;
    let mut i: usize = 0;
    while i < n
        invariant
            n == s@.len(),
            s@ == tok@,
            i <= n,
            forall|j: int| 0 <= j < i ==> is_digit(#[trigger] s@[j]),
            acc as int == digits_val(s@.take(i as int)),
        decreases n - i,
    {
        let c = s.get_char(i);
        if !digit_char(c) {
            assert(!is_digits(tok@));
            return None;
        }
        let d = (c as u32 - 48) as usize;
        proof {
            assert(s@.take(i + 1 as int).drop_last() =~= s@.take(i as int));
            assert(s@.take(i + 1 as int).last() == s@[i as int]);
        }
        let big = match acc.checked_mul(10) {
            Some(x) => x.checked_add(d),
            None => None,
        };
        match big {
            Some(next) => {
                acc = next;
            },
            None => {
                proof {
                    assert(digits_val(s@.take(i + 1 as int)) > usize::MAX as int);
                    if is_digits(tok@) {
                        lemma_digits_prefix_le(s@, i + 1, n as int);
                        assert(s@.take(n as int) =~= s@);
                    }
                }
                return None;
            },
        }
        i = i + 1;
    }
    assert(s@.take(n as int) =~= s@);
    Some(acc)
}

/// Whether some element of `v` views to the same characters as `x`.
pub fn contains_string(v: &Vec<String>, x: &String) -> (b: bool)
    ensures
        b == v.deep_view().contains(x@),
{
    let mut i: usize = 0;
    while i < v.len()
        invariant
            i <= v.len(),
            forall|j: int| 0 <= j < i ==> v.deep_view()[j] != x@,
        decreases v.len() - i,
    {
        if v[i].eq(x) {
            assert(v.deep_view()[i as int] == x@);
            return true;
        }
        i = i + 1;
    }
    false
}

/// Decide `is_word_char` on a concrete character.
pub fn word_char(c: char) -> (b: bool)
    ensures
        b == is_word_char(c),
{
    let u = c as u32;
    (97 <= u && u <= 122) || (65 <= u && u <= 90) || (48 <= u && u <= 57) || u == 95
}

/// The characters of `s` as a vector, for constant-time indexing.
pub fn str_chars(s: &str) -> (v: Vec<char>)
    ensures
        v@ == s@,
{
    let n = s.unicode_len();
    let mut v: Vec<char> = Vec::new();
    let mut i: usize = 0;
    while i < n
        invariant
            n == s@.len(),
            i <= n,
            v@ == s@.take(i as int),
        decreases n - i,
    {
        v.push(s.get_char(i));
        assert(v@ =~= s@.take(i + 1 as int));
        i = i + 1;
    }
    assert(v@ =~= s@);
    v
}

/// Length of the word-character run of `t` starting at `j`.
pub fn word_run_at(t: &Vec<char>, j: usize) -> (r: usize)
    requires
        j <= t.len(),
    ensures
        r as int == word_run(t@, j as int),
        j + r <= t.len(),
{
    let n = t.len();
    let mut k = j;
    while k < n && word_char(t[k])
        invariant
            j <= k <= n,
            n == t.len(),
            word_run(t@, j as int) == (k - j) + word_run(t@, k as int),
        decreases n - k,
    {
        assert(word_run(t@, k as int) == 1 + word_run(t@, k + 1 as int));
        k = k + 1;
    }
    assert(word_run(t@, k as int) == 0);
    k - j
}


/// A compiled pattern: the segment sequence plus, for each field of the
/// declared shape in field order, the capture slot that fills it.
#[derive(Debug)]
pub struct CompiledPattern {
    pub segs: Vec<Segment>,
    pub cap_of_field: Vec<usize>,
}

impl CompiledPattern {
    /// Every field is filled from an existing capture slot.
    pub open spec fn wf(&self) -> bool {
        forall|f: int|
            0 <= f < self.cap_of_field@.len() ==> ((#[trigger] self.cap_of_field@[f]) as int) < crate::matching::cap_count(self.segs@)
    }
}

/// Scan a template into its segments, its placeholder tokens, and its
/// capture-slot tokens.
fn scan_template(template: &str) -> (r: (Vec<Segment>, Vec<String>, Vec<String>))
    ensures
        r.0@ == template_segs(template@),
        r.1.deep_view() == tokens_of(template@),
        r.2.deep_view() == cap_tokens(template@),
{
    let ghost tt = template@;
    let tc = str_chars(template);
    let n = tc.len();
    let mut segs: Vec<Segment> = Vec::new();
    let mut toks: Vec<String> = Vec::new();
    let mut caps: Vec<String> = Vec::new();
    let mut i: usize = 0;
    proof {
        assert(toks.deep_view() =~= Seq::<Seq<char>>::empty());
        assert(caps.deep_view() =~= Seq::<Seq<char>>::empty());
        assert(segs@ + segs_from(tt, 0, toks.deep_view()) =~= segs_from(tt, 0, Seq::empty()));
        assert(toks.deep_view() + tokens_from(tt, 0) =~= tokens_from(tt, 0));
        assert(caps.deep_view() + caps_from(tt, 0, toks.deep_view()) =~= caps_from(
            tt,
            0,
            Seq::empty(),
        ));
    }
    while i < n
        invariant
            tc@ == tt,
            tt == template@,
            n == tc.len(),
            i <= n,
            template_segs(tt) == segs@ + segs_from(tt, i as int, toks.deep_view()),
            tokens_of(tt) == toks.deep_view() + tokens_from(tt, i as int),
            cap_tokens(tt) == caps.deep_view() + caps_from(tt, i as int, toks.deep_view()),
        decreases n - i,
    {
        let ghost seen0 = toks.deep_view();
        let mut hole = false;
        let mut run: usize = 0;
        if tc[i] == '{' {
            run = word_run_at(&tc, i + 1);
            if run >= 1 && i + 1 + run < n && tc[i + 1 + run] == '}' {
                hole = true;
            }
        }
        assert(hole == hole_at(tt, i as int));
        if hole {
            let e = i + 1 + run + 1;
            assert(e as int == hole_end(tt, i as int));
            let piece = template.substring_char(i + 1, i + 1 + run);
            let tok = String::from_str(piece);
            assert(tok@ == hole_token(tt, i as int));
            let is_dup = contains_string(&toks, &tok);
            let ghost sg = if seen0.contains(tok@) {
                Segment::Wild
            } else {
                Segment::Cap
            };
            if is_dup {
                segs.push(Segment::Wild);
            } else {
                segs.push(Segment::Cap);
                let ghost caps0 = caps.deep_view();
                caps.push(tok.clone());
                assert(caps.deep_view() =~= caps0.push(tok@));
            }
            let ghost toks0 = toks.deep_view();
            toks.push(tok);
            proof {
                assert(toks.deep_view() =~= toks0.push(tok@));
                let rest_segs = segs_from(tt, e as int, toks0.push(tok@));
                assert(segs_from(tt, i as int, toks0) == seq![sg] + rest_segs);
                assert(segs@ =~= segs@.drop_last().push(sg));
                assert(segs@ + rest_segs =~= segs@.drop_last() + (seq![sg] + rest_segs));
                let rest_toks = tokens_from(tt, e as int);
                assert(tokens_from(tt, i as int) == seq![tok@] + rest_toks);
                assert(toks.deep_view() + rest_toks =~= toks0 + (seq![tok@] + rest_toks));
                let rest_caps = caps_from(tt, e as int, toks0.push(tok@));
                if seen0.contains(tok@) {
                    assert(caps_from(tt, i as int, toks0) == rest_caps);
                } else {
                    assert(caps_from(tt, i as int, toks0) == seq![tok@] + rest_caps);
                    assert(caps.deep_view() + rest_caps =~= caps.deep_view().drop_last() + (
                    seq![tok@] + rest_caps));
                }
            }
            i = e;
        } else {
            let ghost sg = lit_of(tt, i as int);
            segs.push(Segment::Lit(tc[i]));
            proof {
                let rest_segs = segs_from(tt, i + 1 as int, seen0);
                assert(segs_from(tt, i as int, seen0) == seq![sg] + rest_segs);
                assert(segs@ =~= segs@.drop_last().push(sg));
                assert(segs@ + rest_segs =~= segs@.drop_last() + (seq![sg] + rest_segs));
                assert(tokens_from(tt, i as int) == tokens_from(tt, i + 1 as int));
                assert(caps_from(tt, i as int, seen0) == caps_from(tt, i + 1 as int, seen0));
            }
            i = i + 1;
        }
    }
    assert(segs_from(tt, n as int, toks.deep_view()) =~= Seq::<Segment>::empty());
    assert(tokens_from(tt, n as int) =~= Seq::<Seq<char>>::empty());
    assert(caps_from(tt, n as int, toks.deep_view()) =~= Seq::<Seq<char>>::empty());
    assert(segs@ =~= segs@ + segs_from(tt, n as int, toks.deep_view()));
    assert(toks.deep_view() =~= toks.deep_view() + tokens_from(tt, n as int));
    assert(caps.deep_view() =~= caps.deep_view() + caps_from(tt, n as int, toks.deep_view()));
    (segs, toks, caps)
}


/// First position in `vals` holding `f`.
fn find_val(vals: &Vec<usize>, f: usize) -> (r: Option<usize>)
    ensures
        match r {
            Some(j) => j < vals@.len() && vals@[j as int] == f && forall|k: int|
                0 <= k < j ==> #[trigger] vals@[k] != f,
            None => forall|k: int| 0 <= k < vals@.len() ==> #[trigger] vals@[k] != f,
        },
{
    let mut j: usize = 0;
    while j < vals.len()
        invariant
            j <= vals.len(),
            forall|k: int| 0 <= k < j ==> #[trigger] vals@[k] != f,
        decreases vals.len() - j,
    {
        if vals[j] == f {
            return Some(j);
        }
        j = j + 1;
    }
    None
}

/// First position in `v` of a string viewing as `x`.
fn find_tok(v: &Vec<String>, x: &String) -> (r: Option<usize>)
    ensures
        match r {
            Some(j) => j < v@.len() && v.deep_view()[j as int] == x@ && forall|k: int|
                0 <= k < j ==> #[trigger] v.deep_view()[k] != x@,
            None => forall|k: int| 0 <= k < v@.len() ==> #[trigger] v.deep_view()[k] != x@,
        },
{
    let mut j: usize = 0;
    while j < v.len()
        invariant
            j <= v.len(),
            forall|k: int| 0 <= k < j ==> #[trigger] v.deep_view()[k] != x@,
        decreases v.len() - j,
    {
        if v[j].eq(x) {
            assert(v.deep_view()[j as int] == x@);
            return Some(j);
        }
        j = j + 1;
    }
    None
}

/// Compile one template against its declared shape.
///
/// On success the pattern holds exactly the template's segments, and the
/// field map sends each declared field to the capture slot that fills
/// it. On failure the reported mismatch checks arity before token
/// validity for positional shapes, and missing fields before unknown
/// ones for named shapes.
#[verifier::loop_isolation(false)]
pub fn compile(template: &str, shape: &FieldShape) -> (r: Result<CompiledPattern, ShapeMismatch>)
    ensures
        match r {
            Ok(p) => {
                &&& shape_valid(template@, shape@)
                &&& p.segs@ == template_segs(template@)
                &&& p.cap_of_field@.map_values(|x: usize| x as int) == cap_map(template@, shape@)
                &&& p.wf()
            },
            Err(e) => !shape_valid(template@, shape@) && e == mismatch_of(template@, shape@),
        },
{
    let ghost tt = template@;
    let (segs, toks, caps) = scan_template(template);
    let ghost toksv = toks.deep_view();
    let ghost capsv = caps.deep_view();
    proof {
        lemma_cap_count_caps(tt, 0, Seq::empty());
    }
    match shape {
        FieldShape::Unit => {
            if toks.len() == 0 {
                let p = CompiledPattern { segs, cap_of_field: Vec::new() };
                proof {
                    assert(p.cap_of_field@.map_values(|x: usize| x as int) =~= cap_map(
                        tt,
                        shape@,
                    ));
                }
                Ok(p)
            } else {
                Err(ShapeMismatch::UnitHasPlaceholders)
            }
        },
        FieldShape::Positional(num_ref) => {
            let num = *num_ref;
            assert(shape@ == ShapeModel::Positional(num as int));
            if toks.len() != num {
                return Err(ShapeMismatch::ArityMismatch);
            }
            let mut vals: Vec<usize> = Vec::new();
            let mut j: usize = 0;
            while j < toks.len()
                invariant
                    j <= toks.len(),
                    vals@.len() == j,
                    forall|k: int| 0 <= k < j ==> pos_token_ok(#[trigger] toksv[k], num as int),
                    forall|k: int|
                        0 <= k < j ==> ((#[trigger] vals@[k]) as int) == digits_val(toksv[k]),
                decreases toks.len() - j,
            {
                assert(toks[j as int]@ == toksv[j as int]);
                let r = parse_index(&toks[j]);
                match r {
                    Some(v) => {
                        if v < num {
                            vals.push(v);
                        } else {
                            assert(!pos_token_ok(toksv[j as int], num as int));
                            return Err(ShapeMismatch::IndexOutOfRange);
                        }
                    },
                    None => {
                        assert(!pos_token_ok(toksv[j as int], num as int));
                        return Err(ShapeMismatch::IndexOutOfRange);
                    },
                }
                j = j + 1;
            }
            let mut a: usize = 0;
            while a < vals.len()
                invariant
                    a <= vals.len(),
                    forall|k1: int, k2: int|
                        0 <= k1 < k2 < vals@.len() && k1 < a ==> #[trigger] vals@[k1]
                            != #[trigger] vals@[k2],
                decreases vals.len() - a,
            {
                let mut b: usize = a + 1;
                while b < vals.len()
                    invariant
                        a < b <= vals.len(),
                        forall|k2: int| a < k2 < b ==> #[trigger] vals@[k2] != vals@[a as int],
                    decreases vals.len() - b,
                {
                    if vals[a] == vals[b] {
                        assert(digits_val(toksv[a as int]) == digits_val(toksv[b as int]));
                        assert(!shape_valid(tt, shape@));
                        return Err(ShapeMismatch::ArityMismatch);
                    }
                    b = b + 1;
                }
                a = a + 1;
            }
            let mut cof: Vec<usize> = Vec::new();
            let mut f: usize = 0;
            while f < num
                invariant
                    f <= num,
                    cof@.len() == f,
                    forall|g: int| 0 <= g < f ==> #[trigger] value_covered(toksv, g),
                    forall|g: int|
                        0 <= g < f ==> ((#[trigger] cof@[g]) as int) == index_of_val(toksv, g),
                    forall|g: int| 0 <= g < f ==> ((#[trigger] cof@[g]) as int) < toksv.len(),
                decreases num - f,
            {
                match find_val(&vals, f) {
                    Some(jf) => {
                        proof {
                            assert((vals@[jf as int] as int) == digits_val(toksv[jf as int]));
                            assert(digits_val(toksv[jf as int]) == f as int);
                            assert forall|k: int| 0 <= k < jf implies digits_val(
                                #[trigger] toksv[k],
                            ) != f as int by {
                                assert(vals@[k] != f);
                                assert((vals@[k] as int) == digits_val(toksv[k]));
                            }
                            lemma_index_of_val_first(toksv, f as int, jf as int);
                            assert(value_covered(toksv, f as int));
                        }
                        cof.push(jf);
                    },
                    None => {
                        proof {
                            assert forall|k: int| 0 <= k < toksv.len() implies digits_val(
                                #[trigger] toksv[k],
                            ) != f as int by {
                                assert(vals@[k] != f);
                                assert((vals@[k] as int) == digits_val(toksv[k]));
                            }
                            assert(!value_covered(toksv, f as int));
                            assert(!shape_valid(tt, shape@));
                        }
                        return Err(ShapeMismatch::ArityMismatch);
                    },
                }
                f = f + 1;
            }
            let p = CompiledPattern { segs, cap_of_field: cof };
            proof {
                assert forall|j1: int, j2: int|
                    0 <= j1 < j2 < tokens_of(tt).len() implies tokens_of(tt)[j1] != tokens_of(
                    tt,
                )[j2] by {
                    if tokens_of(tt)[j1] == tokens_of(tt)[j2] {
                        assert(digits_val(toksv[j1]) == digits_val(toksv[j2]));
                        assert((vals@[j1] as int) == digits_val(toksv[j1]));
                        assert((vals@[j2] as int) == digits_val(toksv[j2]));
                        assert(vals@[j1] == vals@[j2]);
                        assert(false);
                    }
                }
                assert forall|j2: int|
                    0 <= j2 < tokens_of(tt).len() implies !Seq::<Seq<char>>::empty().contains(
                    #[trigger] tokens_of(tt)[j2],
                ) by {
                    if Seq::<Seq<char>>::empty().contains(tokens_of(tt)[j2]) {
                        let ix = choose|ix: int|
                            0 <= ix < 0 && Seq::<Seq<char>>::empty()[ix] == tokens_of(tt)[j2];
                        assert(false);
                    }
                }
                lemma_caps_eq_tokens_distinct(tt, 0, Seq::empty());
                assert(capsv.len() == toksv.len());
                assert forall|j2: int| 0 <= j2 < toksv.len() implies pos_token_ok(
                    #[trigger] tokens_of(tt)[j2],
                    num as int,
                ) by {
                    assert(pos_token_ok(toksv[j2], num as int));
                }
                assert forall|j1: int, j2: int|
                    0 <= j1 < j2 < toksv.len() implies digits_val(tokens_of(tt)[j1])
                    != digits_val(tokens_of(tt)[j2]) by {
                    assert(vals@[j1] != vals@[j2]);
                    assert((vals@[j1] as int) == digits_val(toksv[j1]));
                    assert((vals@[j2] as int) == digits_val(toksv[j2]));
                }
                assert forall|g: int| 0 <= g < num implies #[trigger] value_covered(
                    tokens_of(tt),
                    g,
                ) by {
                    assert(value_covered(toksv, g));
                }
                assert(shape_valid(tt, shape@));
                assert(p.cap_of_field@.map_values(|x: usize| x as int) =~= cap_map(tt, shape@));
            }
            Ok(p)
        },
        FieldShape::Named(names) => {
            let ghost namesv = names.deep_view();
            assert(shape@ == ShapeModel::Named(namesv));
            let mut f: usize = 0;
            while f < names.len()
                invariant
                    f <= names.len(),
                    forall|g: int| 0 <= g < f ==> toksv.contains(#[trigger] namesv[g]),
                decreases names.len() - f,
            {
                assert(names[f as int]@ == namesv[f as int]);
                if !contains_string(&toks, &names[f]) {
                    assert(!tokens_of(tt).contains(namesv[f as int]));
                    assert(!named_covers(tt, namesv));
                    return Err(ShapeMismatch::MissingField);
                }
                f = f + 1;
            }
            let mut j: usize = 0;
            while j < toks.len()
                invariant
                    j <= toks.len(),
                    forall|g: int| 0 <= g < j ==> namesv.contains(#[trigger] toksv[g]),
                decreases toks.len() - j,
            {
                assert(toks[j as int]@ == toksv[j as int]);
                if !contains_string(names, &toks[j]) {
                    assert(!namesv.contains(toksv[j as int]));
                    assert(!named_known(tt, namesv));
                    assert(named_covers(tt, namesv));
                    return Err(ShapeMismatch::UnknownField);
                }
                j = j + 1;
            }
            let mut cof: Vec<usize> = Vec::new();
            let mut f2: usize = 0;
            while f2 < names.len()
                invariant
                    f2 <= names.len(),
                    cof@.len() == f2,
                    forall|g: int|
                        0 <= g < f2 ==> ((#[trigger] cof@[g]) as int) == index_of_tok(
                            capsv,
                            namesv[g],
                        ),
                    forall|g: int| 0 <= g < f2 ==> ((#[trigger] cof@[g]) as int) < capsv.len(),
                decreases names.len() - f2,
            {
                assert(names[f2 as int]@ == namesv[f2 as int]);
                match find_tok(&caps, &names[f2]) {
                    Some(jf) => {
                        proof {
                            lemma_index_of_tok_first(capsv, namesv[f2 as int], jf as int);
                        }
                        cof.push(jf);
                    },
                    None => {
                        proof {
                            lemma_caps_membership(tt, 0, Seq::empty(), namesv[f2 as int]);
                            if Seq::<Seq<char>>::empty().contains(namesv[f2 as int]) {
                                let ix = choose|ix: int|
                                    0 <= ix < 0 && Seq::<Seq<char>>::empty()[ix] == namesv[
                                        f2 as int
                                    ];
                            }
                            assert(capsv.contains(namesv[f2 as int]));
                            let jj = choose|jj: int|
                                0 <= jj < capsv.len() && capsv[jj] == namesv[f2 as int];
                            assert(false);
                        }
                        return Err(ShapeMismatch::UnknownField);
                    },
                }
                f2 = f2 + 1;
            }
            let p = CompiledPattern { segs, cap_of_field: cof };
            proof {
                assert(named_covers(tt, namesv));
                assert(named_known(tt, namesv));
                assert(p.cap_of_field@.map_values(|x: usize| x as int) =~= cap_map(tt, shape@));
            }
            Ok(p)
        },
    }
}

} // verus!


