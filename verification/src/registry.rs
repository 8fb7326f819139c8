//! The ordered pattern registry and the matcher.
//!
//! A registry is built once from an ordered list of declarations and is
//! immutable afterwards. Matching walks the compiled patterns strictly
//! in declaration order and returns the first whole-string match;
//! declaration order — not specificity — is the only tie-break, so a
//! catch-all template must be declared last. "No match" is an ordinary
//! `None` result, disjoint from the compile-time shape errors.

use vstd::prelude::*;

use crate::matching::cap_count;
use crate::matching::extract_from;
use crate::matching::greedy_caps;
use crate::matching::lemma_extract_len;
use crate::matching::lemma_extract_unique;
use crate::matching::match_from;
use crate::matching::pat_extract;
use crate::matching::pat_matches;
use crate::template::arity;
use crate::template::cap_map;
use crate::template::compile;
use crate::template::mismatch_of;
use crate::template::shape_valid;
use crate::template::str_chars;
use crate::template::template_segs;
use crate::template::CompiledPattern;
use crate::template::FieldShape;
use crate::template::ShapeMismatch;
use crate::template::ShapeModel;

verus! {

/// One variant declaration: its rendering template and its field shape.
pub struct Declaration {
    pub template: String,
    pub shape: FieldShape,
}

impl View for Declaration {
    type V = (Seq<char>, ShapeModel);

    open spec fn view(&self) -> (Seq<char>, ShapeModel) {
        (self.template@, self.shape@)
    }
}

impl DeepView for Declaration {
    type V = (Seq<char>, ShapeModel);

    open spec fn deep_view(&self) -> (Seq<char>, ShapeModel) {
        self.view()
    }
}

/// A value reconstructed from text: the index of the matched declaration
/// and its field values, in field order.
pub struct StructuredValue {
    pub variant: usize,
    pub fields: Vec<String>,
}

/// The ordered, immutable collection of compiled patterns,
/// index-aligned with the declarations it was built from.
pub struct PatternRegistry {
    pub patterns: Vec<CompiledPattern>,
    pub decls: Ghost<Seq<(Seq<char>, ShapeModel)>>,
}

/// The first declaration at or after `i` whose pattern matches `text`.
pub open spec fn first_match_from(
    ds: Seq<(Seq<char>, ShapeModel)>,
    text: Seq<char>,
    i: int,
) -> Option<int>
    decreases ds.len() - i,
{
    if i < 0 || i >= ds.len() {
        None
    } else if pat_matches(template_segs(ds[i].0), text) {
        Some(i)
    } else {
        first_match_from(ds, text, i + 1)
    }
}

/// The first declaration whose pattern matches `text`, in declaration
/// order.
pub open spec fn first_match(ds: Seq<(Seq<char>, ShapeModel)>, text: Seq<char>) -> Option<int> {
    first_match_from(ds, text, 0)
}

/// The field values declaration `d` reconstructs from `text`: the greedy
/// capture values, reordered from slot order into field order.
pub open spec fn field_values(d: (Seq<char>, ShapeModel), text: Seq<char>) -> Seq<Seq<char>> {
    cap_map(d.0, d.1).map_values(|slot: int| greedy_caps(template_segs(d.0), text)[slot])
}

/// The complete outcome of matching `text` against declarations `ds`:
/// the first matching declaration and its field values, or no match.
pub open spec fn match_outcome(ds: Seq<(Seq<char>, ShapeModel)>, text: Seq<char>) -> Option<
    (int, Seq<Seq<char>>),
> {
    match first_match(ds, text) {
        Some(i) => Some((i, field_values(ds[i], text))),
        None => None,
    }
}

/// Ordering precedence is purely positional: of two patterns that both
/// match, the one declared first is selected, whichever way round they
/// are declared.
pub proof fn lemma_declaration_order_decides(
    a: (Seq<char>, ShapeModel),
    b: (Seq<char>, ShapeModel),
    text: Seq<char>,
)
    requires
        pat_matches(template_segs(a.0), text),
        pat_matches(template_segs(b.0), text),
    ensures
        first_match(seq![a, b], text) == Some(0int),
        first_match(seq![b, a], text) == Some(0int),
{
    assert(seq![a, b][0] == a);
    assert(seq![b, a][0] == b);
}

/// If no declaration before `i` matches, the search result from the
/// start is the search result from `i`.
proof fn lemma_first_match_skip(ds: Seq<(Seq<char>, ShapeModel)>, text: Seq<char>, i: int)
    requires
        0 <= i <= ds.len(),
        forall|j: int| 0 <= j < i ==> !pat_matches(template_segs((#[trigger] ds[j]).0), text),
    ensures
        first_match(ds, text) == first_match_from(ds, text, i),
    decreases i,
{
    if i > 0 {
        lemma_first_match_skip(ds, text, i - 1);
    }
}

impl PatternRegistry {
    /// The patterns are the compiled forms of the recorded declarations.
    pub open spec fn wf(&self) -> bool {
        &&& self.patterns@.len() == self.decls@.len()
        &&& forall|i: int|
            0 <= i < self.decls@.len() ==> {
                &&& (#[trigger] self.patterns@[i]).segs@ == template_segs(self.decls@[i].0)
                &&& self.patterns@[i].cap_of_field@.map_values(|x: usize| x as int) == cap_map(
                    self.decls@[i].0,
                    self.decls@[i].1,
                )
                &&& self.patterns@[i].cap_of_field@.len() == arity(self.decls@[i].1)
                &&& self.patterns@[i].wf()
            }
    }

    /// Compile every declaration, in order. The first declaration whose
    /// template does not agree with its shape fails the whole build with
    /// that declaration's mismatch; on success the registry records the
    /// declarations it was built from.
    pub fn build(decls: &Vec<Declaration>) -> (r: Result<PatternRegistry, ShapeMismatch>)
        ensures
            match r {
                Ok(reg) => {
                    &&& reg.decls@ == decls.deep_view()
                    &&& reg.wf()
                    &&& forall|i: int|
                        0 <= i < decls@.len() ==> shape_valid(
                            (#[trigger] decls.deep_view()[i]).0,
                            decls.deep_view()[i].1,
                        )
                },
                Err(e) => exists|i: int|
                    {
                        &&& 0 <= i < decls@.len()
                        &&& !shape_valid((#[trigger] decls.deep_view()[i]).0, decls.deep_view()[i].1)
                        &&& forall|j: int|
                            0 <= j < i ==> shape_valid(
                                (#[trigger] decls.deep_view()[j]).0,
                                decls.deep_view()[j].1,
                            )
                        &&& e == mismatch_of(decls.deep_view()[i].0, decls.deep_view()[i].1)
                    },
            },
    {
        let ghost dv = decls.deep_view();
        let mut patterns: Vec<CompiledPattern> = Vec::new();
        let mut i: usize = 0;
        while i < decls.len()
            invariant
                i <= decls.len(),
                dv == decls.deep_view(),
                patterns@.len() == i,
                forall|j: int| 0 <= j < i ==> shape_valid((#[trigger] dv[j]).0, dv[j].1),
                forall|j: int|
                    0 <= j < i ==> {
                        &&& (#[trigger] patterns@[j]).segs@ == template_segs(dv[j].0)
                        &&& patterns@[j].cap_of_field@.map_values(|x: usize| x as int) == cap_map(
                            dv[j].0,
                            dv[j].1,
                        )
                        &&& patterns@[j].wf()
                    },
            decreases decls.len() - i,
        {
            assert(decls[i as int]@ == dv[i as int]);
            match compile(decls[i].template.as_str(), &decls[i].shape) {
                Ok(p) => {
                    patterns.push(p);
                },
                Err(e) => {
                    assert(!shape_valid(dv[i as int].0, dv[i as int].1));
                    return Err(e);
                },
            }
            i = i + 1;
        }
        let reg = PatternRegistry { patterns, decls: Ghost(dv) };
        proof {
            assert forall|j: int| 0 <= j < reg.decls@.len() implies {
                &&& (#[trigger] reg.patterns@[j]).segs@ == template_segs(reg.decls@[j].0)
                &&& reg.patterns@[j].cap_of_field@.map_values(|x: usize| x as int) == cap_map(
                    reg.decls@[j].0,
                    reg.decls@[j].1,
                )
                &&& reg.patterns@[j].cap_of_field@.len() == arity(reg.decls@[j].1)
                &&& reg.patterns@[j].wf()
            } by {
                assert(patterns@[j].cap_of_field@.map_values(|x: usize| x as int) == cap_map(
                    dv[j].0,
                    dv[j].1,
                ));
                assert(patterns@[j].cap_of_field@.len() == cap_map(dv[j].0, dv[j].1).len());
            }
        }
        Ok(reg)
    }

    /// Match `text` against the registry: the first declaration, in
    /// declaration order, whose anchored pattern matches the whole text,
    /// with the captured field values; `None` exactly when no pattern
    /// matches. A failed match of one pattern never affects later ones,
    /// and patterns after the first match are never consulted.
    pub fn match_text(&self, text: &str) -> (r: Option<StructuredValue>)
        requires
            self.wf(),
        ensures
            ({
                let out = match_outcome(self.decls@, text@);
                match r {
                    Some(sv) => out == Some((sv.variant as int, sv.fields.deep_view())),
                    None => out is None,
                }
            }),
    {
        let ghost ds = self.decls@;
        let tc = str_chars(text);
        let mut i: usize = 0;
        while i < self.patterns.len()
            invariant
                self.wf(),
                ds == self.decls@,
                tc@ == text@,
                i <= self.patterns.len(),
                forall|j: int|
                    0 <= j < i ==> !pat_matches(template_segs((#[trigger] ds[j]).0), text@),
            decreases self.patterns.len() - i,
        {
            let p = &self.patterns[i];
            assert(p.segs@.skip(0) =~= p.segs@);
            assert(tc@.skip(0) =~= tc@);
            if match_from(&p.segs, 0, &tc, 0) {
                let caps_opt = extract_from(&p.segs, 0, text, &tc, 0);
                match caps_opt {
                    Some(caps) => {
                        let ghost capsdv = caps.deep_view();
                        proof {
                            assert(pat_extract(p.segs@, text@, capsdv));
                            assert(pat_extract(
                                p.segs@,
                                text@,
                                greedy_caps(p.segs@, text@),
                            )) by {
                                assert(exists|c: Seq<Seq<char>>| pat_extract(p.segs@, text@, c));
                            }
                            lemma_extract_unique(
                                p.segs@,
                                text@,
                                capsdv,
                                greedy_caps(p.segs@, text@),
                            );
                            lemma_extract_len(p.segs@, text@, capsdv);
                        }
                        let mut fields: Vec<String> = Vec::new();
                        let nf = p.cap_of_field.len();
                        let mut f: usize = 0;
                        while f < nf
                            invariant
                                self.wf(),
                                ds == self.decls@,
                                i < self.patterns.len(),
                                p == &self.patterns[i as int],
                                nf == p.cap_of_field@.len(),
                                f <= nf,
                                capsdv == caps.deep_view(),
                                capsdv.len() == cap_count(p.segs@),
                                fields@.len() == f,
                                forall|g: int|
                                    0 <= g < f ==> #[trigger] fields.deep_view()[g] == capsdv[(
                                    p.cap_of_field@[g] as int)],
                            decreases nf - f,
                        {
                            let slot = p.cap_of_field[f];
                            assert((slot as int) < cap_count(p.segs@));
                            let ghost fields0 = fields.deep_view();
                            fields.push(caps[slot].clone());
                            proof {
                                assert(caps@[slot as int]@ == capsdv[slot as int]);
                                assert(fields.deep_view() =~= fields0.push(capsdv[slot as int]));
                            }
                            f = f + 1;
                        }
                        proof {
                            lemma_first_match_skip(ds, text@, i as int);
                            assert(first_match(ds, text@) == Some(i as int));
                            let fv = field_values(ds[i as int], text@);
                            assert(cap_map(ds[i as int].0, ds[i as int].1)
                                == p.cap_of_field@.map_values(|x: usize| x as int));
                            assert(greedy_caps(template_segs(ds[i as int].0), text@) == capsdv);
                            assert forall|g: int| 0 <= g < fv.len() implies fv[g]
                                == fields.deep_view()[g] by {
                                assert(cap_map(ds[i as int].0, ds[i as int].1)[g]
                                    == p.cap_of_field@[g] as int);
                            }
                            assert(fields.deep_view() =~= fv);
                        }
                        return Some(StructuredValue { variant: i, fields });
                    },
                    None => {
                        proof {
                            assert(false);
                        }
                        return None;
                    },
                }
            }
            i = i + 1;
        }
        proof {
            lemma_first_match_skip(ds, text@, self.patterns@.len() as int);
        }
        None
    }
}

} // verus!
