//! Anchored matching of compiled pattern segments against text.
//!
//! A segment sequence matches a text exactly when the whole text can be
//! split into the literals and wildcard spans of the pattern, in order,
//! with nothing left over. Wildcards are greedy: each one takes the
//! longest span that still lets the rest of the pattern match, the
//! leftmost wildcard having priority, so the captured values are uniquely
//! determined.

use vstd::prelude::*;

use crate::template::Segment;

verus! {

/// Whether `segs` matches the entire `text`.
pub open spec fn pat_matches(segs: Seq<Segment>, text: Seq<char>) -> bool
    decreases segs.len(),
{
    if segs.len() == 0 {
        text.len() == 0
    } else {
        match segs[0] {
            Segment::Lit(c) => text.len() >= 1 && text[0] == c && pat_matches(
                segs.drop_first(),
                text.drop_first(),
            ),
            _ => exists|k: int|
                0 <= k <= text.len() && pat_matches(segs.drop_first(), #[trigger] text.skip(k)),
        }
    }
}

/// Number of capture slots in `segs`.
pub open spec fn cap_count(segs: Seq<Segment>) -> int
    decreases segs.len(),
{
    if segs.len() == 0 {
        0
    } else {
        (if segs[0] is Cap {
            1int
        } else {
            0int
        }) + cap_count(segs.drop_first())
    }
}

/// There cannot be fewer than zero capture slots.
pub proof fn lemma_cap_count_nonneg(segs: Seq<Segment>)
    ensures
        cap_count(segs) >= 0,
    decreases segs.len(),
{
    if segs.len() > 0 {
        lemma_cap_count_nonneg(segs.drop_first());
    }
}

/// Whether matching `segs` against the entire `text` with greedy
/// wildcards yields exactly the capture values `caps`, one per capture
/// slot in slot order. Greedy: each wildcard takes the largest span whose
/// remainder still matches the rest of the pattern.
pub open spec fn pat_extract(segs: Seq<Segment>, text: Seq<char>, caps: Seq<Seq<char>>) -> bool
    decreases segs.len(),
{
    if segs.len() == 0 {
        text.len() == 0 && caps.len() == 0
    } else {
        match segs[0] {
            Segment::Lit(c) => text.len() >= 1 && text[0] == c && pat_extract(
                segs.drop_first(),
                text.drop_first(),
                caps,
            ),
            Segment::Cap => exists|k: int|
                {
                    &&& 0 <= k <= text.len()
                    &&& pat_matches(segs.drop_first(), #[trigger] text.skip(k))
                    &&& forall|k2: int|
                        k < k2 <= text.len() ==> !pat_matches(
                            segs.drop_first(),
                            #[trigger] text.skip(k2),
                        )
                    &&& caps.len() >= 1
                    &&& caps[0] == text.take(k)
                    &&& pat_extract(segs.drop_first(), text.skip(k), caps.drop_first())
                },
            Segment::Wild => exists|k: int|
                {
                    &&& 0 <= k <= text.len()
                    &&& pat_matches(segs.drop_first(), #[trigger] text.skip(k))
                    &&& forall|k2: int|
                        k < k2 <= text.len() ==> !pat_matches(
                            segs.drop_first(),
                            #[trigger] text.skip(k2),
                        )
                    &&& pat_extract(segs.drop_first(), text.skip(k), caps)
                },
        }
    }
}

/// The capture values that greedy matching of `segs` against `text`
/// produces; meaningful only when `pat_matches(segs, text)` holds.
pub open spec fn greedy_caps(segs: Seq<Segment>, text: Seq<char>) -> Seq<Seq<char>> {
    choose|caps: Seq<Seq<char>>| pat_extract(segs, text, caps)
}

/// A matching text has an extraction.
pub proof fn lemma_matches_has_extraction(segs: Seq<Segment>, text: Seq<char>)
    requires
        pat_matches(segs, text),
    ensures
        pat_extract(segs, text, greedy_caps(segs, text)),
    decreases segs.len(), text.len(),
{
    if segs.len() == 0 {
        assert(pat_extract(segs, text, Seq::<Seq<char>>::empty()));
    } else {
        match segs[0] {
            Segment::Lit(c) => {
                lemma_matches_has_extraction(segs.drop_first(), text.drop_first());
                let caps = greedy_caps(segs.drop_first(), text.drop_first());
                assert(pat_extract(segs, text, caps));
            },
            Segment::Cap => {
                let k = max_matching_skip(segs.drop_first(), text, text.len() as int);
                lemma_matches_has_extraction(segs.drop_first(), text.skip(k));
                let rest = greedy_caps(segs.drop_first(), text.skip(k));
                let caps = seq![text.take(k)] + rest;
                assert(caps.drop_first() =~= rest);
                assert(pat_extract(segs, text, caps));
            },
            Segment::Wild => {
                let k = max_matching_skip(segs.drop_first(), text, text.len() as int);
                lemma_matches_has_extraction(segs.drop_first(), text.skip(k));
                let caps = greedy_caps(segs.drop_first(), text.skip(k));
                assert(pat_extract(segs, text, caps));
            },
        }
    }
}

/// The largest `k <= hi` such that `rest` matches `text.skip(k)`,
/// provided some `k <= hi` works.
proof fn max_matching_skip(rest: Seq<Segment>, text: Seq<char>, hi: int) -> (k: int)
    requires
        0 <= hi <= text.len(),
        exists|k0: int| 0 <= k0 <= hi && pat_matches(rest, #[trigger] text.skip(k0)),
    ensures
        0 <= k <= hi,
        pat_matches(rest, text.skip(k)),
        forall|k2: int| k < k2 <= hi ==> !pat_matches(rest, #[trigger] text.skip(k2)),
    decreases hi,
{
    if pat_matches(rest, text.skip(hi)) {
        hi
    } else {
        let k0 = choose|k0: int| 0 <= k0 <= hi && pat_matches(rest, #[trigger] text.skip(k0));
        assert(k0 < hi);
        max_matching_skip(rest, text, hi - 1)
    }
}

/// Greedy extraction is deterministic: a pattern extracts at most one
/// capture list from a given text.
pub proof fn lemma_extract_unique(
    segs: Seq<Segment>,
    text: Seq<char>,
    c1: Seq<Seq<char>>,
    c2: Seq<Seq<char>>,
)
    requires
        pat_extract(segs, text, c1),
        pat_extract(segs, text, c2),
    ensures
        c1 == c2,
    decreases segs.len(),
{
    if segs.len() == 0 {
        assert(c1 =~= c2);
    } else {
        match segs[0] {
            Segment::Lit(c) => {
                lemma_extract_unique(segs.drop_first(), text.drop_first(), c1, c2);
            },
            Segment::Cap => {
                let k1 = choose|k: int|
                    {
                        &&& 0 <= k <= text.len()
                        &&& pat_matches(segs.drop_first(), #[trigger] text.skip(k))
                        &&& forall|k2: int|
                            k < k2 <= text.len() ==> !pat_matches(
                                segs.drop_first(),
                                #[trigger] text.skip(k2),
                            )
                        &&& c1.len() >= 1
                        &&& c1[0] == text.take(k)
                        &&& pat_extract(segs.drop_first(), text.skip(k), c1.drop_first())
                    };
                let k2 = choose|k: int|
                    {
                        &&& 0 <= k <= text.len()
                        &&& pat_matches(segs.drop_first(), #[trigger] text.skip(k))
                        &&& forall|kx: int|
                            k < kx <= text.len() ==> !pat_matches(
                                segs.drop_first(),
                                #[trigger] text.skip(kx),
                            )
                        &&& c2.len() >= 1
                        &&& c2[0] == text.take(k)
                        &&& pat_extract(segs.drop_first(), text.skip(k), c2.drop_first())
                    };
                assert(k1 == k2);
                lemma_extract_unique(segs.drop_first(), text.skip(k1), c1.drop_first(), c2.drop_first());
                assert(c1 =~= seq![text.take(k1)] + c1.drop_first());
                assert(c2 =~= seq![text.take(k1)] + c2.drop_first());
            },
            Segment::Wild => {
                let k1 = choose|k: int|
                    {
                        &&& 0 <= k <= text.len()
                        &&& pat_matches(segs.drop_first(), #[trigger] text.skip(k))
                        &&& forall|k2: int|
                            k < k2 <= text.len() ==> !pat_matches(
                                segs.drop_first(),
                                #[trigger] text.skip(k2),
                            )
                        &&& pat_extract(segs.drop_first(), text.skip(k), c1)
                    };
                let k2 = choose|k: int|
                    {
                        &&& 0 <= k <= text.len()
                        &&& pat_matches(segs.drop_first(), #[trigger] text.skip(k))
                        &&& forall|kx: int|
                            k < kx <= text.len() ==> !pat_matches(
                                segs.drop_first(),
                                #[trigger] text.skip(kx),
                            )
                        &&& pat_extract(segs.drop_first(), text.skip(k), c2)
                    };
                assert(k1 == k2);
                lemma_extract_unique(segs.drop_first(), text.skip(k1), c1, c2);
            },
        }
    }
}

/// An extraction has one value per capture slot.
pub proof fn lemma_extract_len(segs: Seq<Segment>, text: Seq<char>, caps: Seq<Seq<char>>)
    requires
        pat_extract(segs, text, caps),
    ensures
        caps.len() == cap_count(segs),
    decreases segs.len(),
{
    if segs.len() == 0 {
    } else {
        match segs[0] {
            Segment::Lit(c) => {
                lemma_extract_len(segs.drop_first(), text.drop_first(), caps);
            },
            Segment::Cap => {
                let k = choose|k: int|
                    {
                        &&& 0 <= k <= text.len()
                        &&& pat_matches(segs.drop_first(), #[trigger] text.skip(k))
                        &&& forall|k2: int|
                            k < k2 <= text.len() ==> !pat_matches(
                                segs.drop_first(),
                                #[trigger] text.skip(k2),
                            )
                        &&& caps.len() >= 1
                        &&& caps[0] == text.take(k)
                        &&& pat_extract(segs.drop_first(), text.skip(k), caps.drop_first())
                    };
                lemma_extract_len(segs.drop_first(), text.skip(k), caps.drop_first());
            },
            Segment::Wild => {
                let k = choose|k: int|
                    {
                        &&& 0 <= k <= text.len()
                        &&& pat_matches(segs.drop_first(), #[trigger] text.skip(k))
                        &&& forall|k2: int|
                            k < k2 <= text.len() ==> !pat_matches(
                                segs.drop_first(),
                                #[trigger] text.skip(k2),
                            )
                        &&& pat_extract(segs.drop_first(), text.skip(k), caps)
                    };
                lemma_extract_len(segs.drop_first(), text.skip(k), caps);
            },
        }
    }
}

/// The text a pattern produces when each capture slot is filled from
/// `vals` in slot order — the same text the variant's template
/// renders for those values. Wildcards stand for repeated placeholders and are only
/// meaningful in patterns that also capture the token, so they
/// contribute no text here; the laws below are stated for wildcard-free
/// patterns.
pub open spec fn spec_render(segs: Seq<Segment>, vals: Seq<Seq<char>>) -> Seq<char>
    decreases segs.len(),
{
    if segs.len() == 0 {
        Seq::empty()
    } else {
        match segs[0] {
            Segment::Lit(c) => seq![c] + spec_render(segs.drop_first(), vals),
            Segment::Cap => (if vals.len() >= 1 {
                vals[0]
            } else {
                Seq::empty()
            }) + spec_render(segs.drop_first(), vals.drop_first()),
            Segment::Wild => spec_render(segs.drop_first(), vals),
        }
    }
}

/// A pattern with no placeholders at all.
pub open spec fn all_literals(segs: Seq<Segment>) -> bool {
    forall|i: int| 0 <= i < segs.len() ==> (#[trigger] segs[i]) is Lit
}

/// A pattern whose placeholders all capture (no repeated tokens).
pub open spec fn no_wildcards(segs: Seq<Segment>) -> bool {
    forall|i: int| 0 <= i < segs.len() ==> !((#[trigger] segs[i]) is Wild)
}

/// The literal characters of a pattern, in order.
pub open spec fn literal_text(segs: Seq<Segment>) -> Seq<char>
    decreases segs.len(),
{
    if segs.len() == 0 {
        Seq::empty()
    } else {
        match segs[0] {
            Segment::Lit(c) => seq![c] + literal_text(segs.drop_first()),
            _ => literal_text(segs.drop_first()),
        }
    }
}

/// A rendered text matches the pattern it was rendered from.
pub proof fn lemma_render_matches(segs: Seq<Segment>, vals: Seq<Seq<char>>)
    requires
        no_wildcards(segs),
        vals.len() == cap_count(segs),
    ensures
        pat_matches(segs, spec_render(segs, vals)),
    decreases segs.len(),
{
    if segs.len() == 0 {
    } else {
        assert(segs.drop_first().len() == segs.len() - 1);
        assert(forall|i: int|
            0 <= i < segs.drop_first().len() ==> segs.drop_first()[i] == segs[i + 1]);
        let text = spec_render(segs, vals);
        match segs[0] {
            Segment::Lit(c) => {
                lemma_render_matches(segs.drop_first(), vals);
                assert(text[0] == c);
                assert(text.drop_first() =~= spec_render(segs.drop_first(), vals));
            },
            Segment::Cap => {
                lemma_cap_count_nonneg(segs.drop_first());
                lemma_render_matches(segs.drop_first(), vals.drop_first());
                let k = vals[0].len() as int;
                assert(text.skip(k) =~= spec_render(segs.drop_first(), vals.drop_first()));
                assert(pat_matches(segs.drop_first(), text.skip(k)));
            },
            Segment::Wild => {
                assert(segs[0] is Wild);
                assert(false);
            },
        }
    }
}

/// Whatever a wildcard-free pattern extracts from a text renders back to
/// that same text: no information outside the captures is lost.
pub proof fn lemma_extraction_renders_back(
    segs: Seq<Segment>,
    text: Seq<char>,
    caps: Seq<Seq<char>>,
)
    requires
        no_wildcards(segs),
        pat_extract(segs, text, caps),
    ensures
        spec_render(segs, caps) == text,
    decreases segs.len(),
{
    if segs.len() == 0 {
        assert(spec_render(segs, caps) =~= text);
    } else {
        assert(forall|i: int|
            0 <= i < segs.drop_first().len() ==> segs.drop_first()[i] == segs[i + 1]);
        match segs[0] {
            Segment::Lit(c) => {
                lemma_extraction_renders_back(segs.drop_first(), text.drop_first(), caps);
                assert(spec_render(segs, caps) =~= seq![c] + text.drop_first());
                assert(seq![c] + text.drop_first() =~= text);
            },
            Segment::Cap => {
                let k = choose|k: int|
                    {
                        &&& 0 <= k <= text.len()
                        &&& pat_matches(segs.drop_first(), #[trigger] text.skip(k))
                        &&& forall|k2: int|
                            k < k2 <= text.len() ==> !pat_matches(
                                segs.drop_first(),
                                #[trigger] text.skip(k2),
                            )
                        &&& caps.len() >= 1
                        &&& caps[0] == text.take(k)
                        &&& pat_extract(segs.drop_first(), text.skip(k), caps.drop_first())
                    };
                lemma_extraction_renders_back(segs.drop_first(), text.skip(k), caps.drop_first());
                assert(spec_render(segs, caps) =~= text.take(k) + text.skip(k));
                assert(text.take(k) + text.skip(k) =~= text);
            },
            Segment::Wild => {
                assert(segs[0] is Wild);
                assert(false);
            },
        }
    }
}

/// Format/parse round trip for a wildcard-free pattern: rendering any
/// values and matching the rendered text succeeds, and the values that
/// greedy matching extracts render back to exactly the same text. The
/// extracted values themselves can differ from the rendered ones when a
/// value embeds the literal text that follows its own slot, so equality
/// of the re-rendered text is the strongest form that holds for all
/// values.
pub proof fn lemma_render_extract_round_trip(segs: Seq<Segment>, vals: Seq<Seq<char>>)
    requires
        no_wildcards(segs),
        vals.len() == cap_count(segs),
    ensures
        pat_matches(segs, spec_render(segs, vals)),
        forall|caps: Seq<Seq<char>>|
            pat_extract(segs, spec_render(segs, vals), caps) ==> #[trigger] spec_render(
                segs,
                caps,
            ) == spec_render(segs, vals),
{
    lemma_render_matches(segs, vals);
    assert forall|caps: Seq<Seq<char>>|
        pat_extract(segs, spec_render(segs, vals), caps) implies #[trigger] spec_render(
        segs,
        caps,
    ) == spec_render(segs, vals) by {
        lemma_extraction_renders_back(segs, spec_render(segs, vals), caps);
    }
}

/// A placeholder-free pattern matches exactly one text: its own literal
/// characters.
pub proof fn lemma_literal_pattern_exact(segs: Seq<Segment>, text: Seq<char>)
    requires
        all_literals(segs),
    ensures
        pat_matches(segs, text) <==> text == literal_text(segs),
    decreases segs.len(),
{
    if segs.len() == 0 {
        if text.len() == 0 {
            assert(text =~= literal_text(segs));
        }
    } else {
        assert(forall|i: int|
            0 <= i < segs.drop_first().len() ==> segs.drop_first()[i] == segs[i + 1]);
        let c = segs[0]->Lit_0;
        lemma_literal_pattern_exact(segs.drop_first(), text.drop_first());
        if pat_matches(segs, text) {
            assert(text =~= seq![c] + literal_text(segs.drop_first()));
        }
        if text == literal_text(segs) {
            assert(text[0] == c);
            assert(text.drop_first() =~= literal_text(segs.drop_first()));
        }
    }
}

/// Whole-string anchoring: a text that matches a placeholder-free
/// pattern stops matching as soon as any character is appended or
/// prepended — there are no substring matches. (A pattern whose first or
/// last segment is a placeholder can absorb the extra character instead;
/// the law is therefore stated for fully literal patterns.)
pub proof fn lemma_anchoring(segs: Seq<Segment>, text: Seq<char>, c: char)
    requires
        all_literals(segs),
        pat_matches(segs, text),
    ensures
        !pat_matches(segs, text.push(c)),
        !pat_matches(segs, seq![c] + text),
{
    lemma_literal_pattern_exact(segs, text);
    lemma_literal_pattern_exact(segs, text.push(c));
    lemma_literal_pattern_exact(segs, seq![c] + text);
    assert(text.push(c).len() == text.len() + 1);
    assert((seq![c] + text).len() == text.len() + 1);
}


/// Zero capture slots in a wildcard-free pattern mean no placeholders
/// at all.
pub proof fn lemma_no_caps_all_literals(segs: Seq<Segment>)
    requires
        no_wildcards(segs),
        cap_count(segs) == 0,
    ensures
        all_literals(segs),
    decreases segs.len(),
{
    if segs.len() > 0 {
        assert(forall|i: int|
            0 <= i < segs.drop_first().len() ==> segs.drop_first()[i] == segs[i + 1]);
        lemma_cap_count_nonneg(segs.drop_first());
        assert(!(segs[0] is Cap));
        lemma_no_caps_all_literals(segs.drop_first());
        assert forall|i: int| 0 <= i < segs.len() implies (#[trigger] segs[i]) is Lit by {
            if i > 0 {
                assert(segs.drop_first()[i - 1] is Lit);
            }
        }
    }
}

/// A placeholder-free pattern renders to its literal characters,
/// whatever values are supplied.
pub proof fn lemma_literal_render(segs: Seq<Segment>, vals: Seq<Seq<char>>)
    requires
        all_literals(segs),
    ensures
        spec_render(segs, vals) == literal_text(segs),
    decreases segs.len(),
{
    if segs.len() > 0 {
        assert(forall|i: int|
            0 <= i < segs.drop_first().len() ==> segs.drop_first()[i] == segs[i + 1]);
        lemma_literal_render(segs.drop_first(), vals);
    }
}

/// A placeholder-free pattern extracts the empty capture list from any
/// text it matches.
pub proof fn lemma_literal_extract(segs: Seq<Segment>, text: Seq<char>)
    requires
        all_literals(segs),
        pat_matches(segs, text),
    ensures
        pat_extract(segs, text, Seq::empty()),
    decreases segs.len(),
{
    if segs.len() > 0 {
        assert(forall|i: int|
            0 <= i < segs.drop_first().len() ==> segs.drop_first()[i] == segs[i + 1]);
        lemma_literal_extract(segs.drop_first(), text.drop_first());
    }
}

/// Exact round trip for a pattern with exactly one capture slot:
/// everything around the slot is literal, so the match is forced to
/// give the slot exactly the span the value occupied — whatever
/// characters, including the pattern's own literals, the value
/// contains. (With two or more slots the captured values can shift when
/// a value embeds the literal text separating the slots; there the
/// guarantee is `lemma_render_extract_round_trip`.)
pub proof fn lemma_single_capture_round_trip(segs: Seq<Segment>, v: Seq<char>)
    requires
        no_wildcards(segs),
        cap_count(segs) == 1,
    ensures
        pat_matches(segs, spec_render(segs, seq![v])),
        pat_extract(segs, spec_render(segs, seq![v]), seq![v]),
    decreases segs.len(),
{
    lemma_render_matches(segs, seq![v]);
    let text = spec_render(segs, seq![v]);
    assert(segs.len() > 0);
    assert(forall|i: int|
        0 <= i < segs.drop_first().len() ==> segs.drop_first()[i] == segs[i + 1]);
    match segs[0] {
        Segment::Lit(c) => {
            lemma_single_capture_round_trip(segs.drop_first(), v);
            assert(text.drop_first() =~= spec_render(segs.drop_first(), seq![v]));
            assert(pat_extract(segs, text, seq![v]));
        },
        Segment::Cap => {
            let rest = segs.drop_first();
            lemma_cap_count_nonneg(rest);
            lemma_no_caps_all_literals(rest);
            let vals = seq![v];
            assert(vals[0] == v);
            assert(vals.drop_first() =~= Seq::<Seq<char>>::empty());
            lemma_literal_render(rest, vals.drop_first());
            let lit = literal_text(rest);
            assert(text =~= v + lit);
            let k = v.len() as int;
            assert(text.skip(k) =~= lit);
            lemma_literal_pattern_exact(rest, text.skip(k));
            assert(pat_matches(rest, text.skip(k)));
            assert forall|k2: int| k < k2 <= text.len() implies !pat_matches(
                rest,
                #[trigger] text.skip(k2),
            ) by {
                lemma_literal_pattern_exact(rest, text.skip(k2));
                assert(text.skip(k2).len() < lit.len());
            }
            lemma_literal_extract(rest, text.skip(k));
            assert(seq![v][0] == text.take(k)) by {
                assert(text.take(k) =~= v);
            }
            assert(seq![v].drop_first() =~= Seq::<Seq<char>>::empty());
            assert(pat_extract(segs, text, seq![v]));
        },
        Segment::Wild => {
            assert(segs[0] is Wild);
            assert(false);
        },
    }
}

/// Decide whether `segs[si..]` matches `text[pos..]`.
pub fn match_from(segs: &Vec<Segment>, si: usize, tc: &Vec<char>, pos: usize) -> (b: bool)
    requires
        si <= segs.len(),
        pos <= tc.len(),
    ensures
        b == pat_matches(segs@.skip(si as int), tc@.skip(pos as int)),
    decreases segs.len() - si,
{
    if si == segs.len() {
        assert(segs@.skip(si as int) =~= Seq::<Segment>::empty());
        assert(tc@.skip(pos as int).len() == tc@.len() - pos);
        return pos == tc.len();
    }
    let ghost gsegs = segs@.skip(si as int);
    let ghost gtext = tc@.skip(pos as int);
    assert(gsegs[0] == segs@[si as int]);
    assert(gsegs.drop_first() =~= segs@.skip(si + 1 as int));
    match segs[si] {
        Segment::Lit(c) => {
            if pos < tc.len() && tc[pos] == c {
                assert(gtext[0] == tc@[pos as int]);
                assert(gtext.drop_first() =~= tc@.skip(pos + 1 as int));
                match_from(segs, si + 1, tc, pos + 1)
            } else {
                false
            }
        },
        _ => {
            let rem = tc.len() - pos;
            let mut k = rem;
            loop
                invariant
                    si < segs.len(),
                    pos <= tc.len(),
                    k <= rem,
                    rem == tc.len() - pos,
                    gsegs == segs@.skip(si as int),
                    gtext == tc@.skip(pos as int),
                    gsegs.drop_first() =~= segs@.skip(si + 1 as int),
                    !(gsegs[0] is Lit),
                    forall|k2: int|
                        k < k2 <= rem ==> !pat_matches(
                            segs@.skip(si + 1 as int),
                            #[trigger] gtext.skip(k2),
                        ),
                decreases k,
            {
                assert(gtext.skip(k as int) =~= tc@.skip(pos + k as int));
                if match_from(segs, si + 1, tc, pos + k) {
                    assert(pat_matches(gsegs.drop_first(), gtext.skip(k as int)));
                    assert(pat_matches(gsegs, gtext));
                    return true;
                }
                if k == 0 {
                    assert(forall|k2: int|
                        0 <= k2 <= gtext.len() ==> !pat_matches(
                            gsegs.drop_first(),
                            #[trigger] gtext.skip(k2),
                        ));
                    assert(!pat_matches(gsegs, gtext));
                    return false;
                }
                k = k - 1;
            }
        },
    }
}

/// Greedy extraction: the capture values of `segs[si..]` matched against
/// `text[pos..]`, or `None` when there is no match. `tc` holds the
/// characters of `text` for constant-time indexing.
pub fn extract_from(
    segs: &Vec<Segment>,
    si: usize,
    text: &str,
    tc: &Vec<char>,
    pos: usize,
) -> (r: Option<Vec<String>>)
    requires
        si <= segs.len(),
        pos <= tc.len(),
        tc@ == text@,
    ensures
        match r {
            Some(caps) => pat_extract(
                segs@.skip(si as int),
                tc@.skip(pos as int),
                caps.deep_view(),
            ),
            None => !pat_matches(segs@.skip(si as int), tc@.skip(pos as int)),
        },
    decreases segs.len() - si,
{
    let ghost gsegs = segs@.skip(si as int);
    let ghost gtext = tc@.skip(pos as int);
    if si == segs.len() {
        assert(gsegs =~= Seq::<Segment>::empty());
        if pos == tc.len() {
            let caps: Vec<String> = Vec::new();
            assert(caps.deep_view() =~= Seq::<Seq<char>>::empty());
            return Some(caps);
        } else {
            return None;
        }
    }
    assert(gsegs[0] == segs@[si as int]);
    assert(gsegs.drop_first() =~= segs@.skip(si + 1 as int));
    match segs[si] {
        Segment::Lit(c) => {
            if pos < tc.len() && tc[pos] == c {
                assert(gtext[0] == tc@[pos as int]);
                assert(gtext.drop_first() =~= tc@.skip(pos + 1 as int));
                extract_from(segs, si + 1, text, tc, pos + 1)
            } else {
                None
            }
        },
        _ => {
            let is_cap = match segs[si] {
                Segment::Cap => true,
                _ => false,
            };
            let rem = tc.len() - pos;
            let mut k = rem;
            loop
                invariant
                    si < segs.len(),
                    pos <= tc.len(),
                    k <= rem,
                    rem == tc.len() - pos,
                    tc@ == text@,
                    gsegs == segs@.skip(si as int),
                    gtext == tc@.skip(pos as int),
                    gsegs.drop_first() =~= segs@.skip(si + 1 as int),
                    !(gsegs[0] is Lit),
                    is_cap == (gsegs[0] is Cap),
                    forall|k2: int|
                        k < k2 <= rem ==> !pat_matches(
                            segs@.skip(si + 1 as int),
                            #[trigger] gtext.skip(k2),
                        ),
                decreases k,
            {
                assert(gtext.skip(k as int) =~= tc@.skip(pos + k as int));
                if match_from(segs, si + 1, tc, pos + k) {
                    let rest = extract_from(segs, si + 1, text, tc, pos + k);
                    match rest {
                        Some(tail) => {
                            if is_cap {
                                let piece = text.substring_char(pos, pos + k);
                                let val = String::from_str(piece);
                                let mut caps = tail;
                                let ghost pre = caps.deep_view();
                                caps.insert(0, val);
                                proof {
                                    let gcaps = caps.deep_view();
                                    assert(gcaps.len() == pre.len() + 1);
                                    assert(gcaps[0] == val@);
                                    assert(val@ =~= gtext.take(k as int));
                                    assert(gcaps.drop_first() =~= pre);
                                }
                                assert(pat_extract(gsegs, gtext, caps.deep_view()));
                                return Some(caps);
                            } else {
                                assert(pat_extract(gsegs, gtext, tail.deep_view()));
                                return Some(tail);
                            }
                        },
                        None => {
                            proof {
                                assert(false);
                            }
                            return None;
                        },
                    }
                }
                if k == 0 {
                    assert(forall|k2: int|
                        0 <= k2 <= gtext.len() ==> !pat_matches(
                            gsegs.drop_first(),
                            #[trigger] gtext.skip(k2),
                        ));
                    assert(!pat_matches(gsegs, gtext));
                    return None;
                }
                k = k - 1;
            }
        },
    }
}

} // verus!
