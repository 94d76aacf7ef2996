//! Density: every term counts, each once, and words are counted as they stand.

use vstd::prelude::*;
use crate::density;
use crate::density::DensityBand;
use crate::domain::KeywordSet;
use crate::laws::words;
use crate::text;

verus! {

/// The matches of the terms in a text, as they are measured.
pub open spec fn measured(terms: Seq<Seq<char>>, s: Seq<char>) -> u32 {
    density::matches_of(density::distinct(terms), s)
}

/// The number of matches of a term in a text: as a whole word, in any case, each
/// of its characters as it stands.
pub open spec fn matches_in(term: Seq<char>, s: Seq<char>) -> Option<nat> {
    density::match_count(
        "(?i)\\b{start-half}"@ + density::escaped(text::trimmed(term)) + "\\b{end-half}"@,
        s,
    )
}

/// Two terms are the same: they differ in case and in the white space around them
/// at most.
pub open spec fn same_term(a: Seq<char>, b: Seq<char>) -> bool {
    text::unicode_lowercase_text(text::trimmed(a)) == text::unicode_lowercase_text(text::trimmed(b))
}

proof fn lemma_distinct_comes_from(terms: Seq<Seq<char>>)
    ensures
        forall|i: int|
            0 <= i < density::distinct(terms).len() ==> exists|k: int|
                0 <= k < terms.len() && text::trimmed(#[trigger] terms[k])
                    == #[trigger] density::distinct(terms)[i] && text::trimmed(terms[k]).len() > 0,
    decreases terms.len(),
{
    if terms.len() > 0 {
        let earlier = terms.drop_last();
        lemma_distinct_comes_from(earlier);
        let before = density::distinct(earlier);
        let now = density::distinct(terms);
        assert forall|i: int| 0 <= i < now.len() implies exists|k: int|
            0 <= k < terms.len() && text::trimmed(#[trigger] terms[k]) == #[trigger] now[i]
                && text::trimmed(terms[k]).len() > 0 by {
            if i < before.len() {
                assert(now[i] == before[i]);
                let k = choose|k: int|
                    0 <= k < earlier.len() && text::trimmed(#[trigger] earlier[k]) == before[i]
                        && text::trimmed(earlier[k]).len() > 0;
                assert(terms[k] == earlier[k]);
            } else {
                assert(terms[terms.len() - 1] == terms.last());
            }
        }
    }
}

/// Without a term there is no match. One more term adds its matches to those of
/// the others, whatever characters it holds, unless it is blank or there already;
/// a sum that is too large is the largest number.
pub proof fn one_more_term_adds_its_matches(terms: Seq<Seq<char>>, term: Seq<char>, s: Seq<char>)
    requires
        matches_in(term, s) matches Some(n) ==> n <= u32::MAX,
    ensures
        measured(Seq::empty(), s) == 0,
        ({
            let fresh = text::trimmed(term).len() > 0 && !(exists|i: int|
                0 <= i < terms.len() && text::trimmed(#[trigger] terms[i]).len() > 0 && same_term(
                    terms[i],
                    term,
                ));
            match matches_in(term, s) {
                Some(n) => if fresh {
                    &&& measured(terms, s) + n <= u32::MAX ==> measured(terms.push(term), s)
                        == measured(terms, s) + n
                    &&& measured(terms, s) + n > u32::MAX ==> measured(terms.push(term), s)
                        == u32::MAX
                } else {
                    measured(terms.push(term), s) == measured(terms, s)
                },
                None => measured(terms.push(term), s) == measured(terms, s),
            }
        }),
{
    let all = terms.push(term);
    let before = density::distinct(terms);
    let t = text::trimmed(term);
    assert(all.drop_last() =~= terms);
    assert(density::counts_of(density::distinct(Seq::empty()), s) =~= Seq::empty());
    density::each_term_counts_once(terms);
    lemma_distinct_comes_from(terms);
    let known = exists|i: int|
        0 <= i < terms.len() && text::trimmed(#[trigger] terms[i]).len() > 0 && same_term(
            terms[i],
            term,
        );
    if known {
        let i = choose|i: int|
            0 <= i < terms.len() && text::trimmed(#[trigger] terms[i]).len() > 0 && same_term(
                terms[i],
                term,
            );
        assert(density::listed(before, text::trimmed(terms[i])));
        let k = choose|k: int|
            0 <= k < before.len() && density::fold(#[trigger] before[k]) == density::fold(
                text::trimmed(terms[i]),
            );
        assert(density::fold(before[k]) == density::fold(t));
        assert(density::listed(before, t));
    }
    if density::listed(before, t) && t.len() > 0 {
        let k = choose|k: int|
            0 <= k < before.len() && density::fold(#[trigger] before[k]) == density::fold(t);
        let i = choose|i: int|
            0 <= i < terms.len() && text::trimmed(#[trigger] terms[i]) == before[k]
                && text::trimmed(terms[i]).len() > 0;
        assert(same_term(terms[i], term));
        assert(known);
    }
    if t.len() > 0 && !density::listed(before, t) {
        let now = before.push(t);
        assert(density::distinct(all) == now);
        let counts = density::counts_of(now, s);
        assert(counts.drop_last() =~= density::counts_of(before, s));
        assert(counts.last() == matches_in(term, s));
    }
}

/// The terms that are measured are the primary terms of all entries, category
/// after category, and no others.
pub proof fn every_entry_is_measured(set: KeywordSet)
    ensures
        ({
            let h = set.hard_skills_and_tools@;
            let o = set.soft_skills_and_competencies@;
            let d = set.industry_specific_terminology@;
            let c = set.certifications_and_credentials@;
            let j = set.job_titles_and_seniority@;
            let all = set.terms();
            &&& all.len() == h.len() + o.len() + d.len() + c.len() + j.len()
            &&& forall|i: int| 0 <= i < h.len() ==> all[i] == (#[trigger] h[i]).primary_term@
            &&& forall|i: int|
                0 <= i < o.len() ==> all[h.len() + i] == (#[trigger] o[i]).primary_term@
            &&& forall|i: int|
                0 <= i < d.len() ==> all[h.len() + o.len() + i] == (#[trigger] d[i]).primary_term@
            &&& forall|i: int|
                0 <= i < c.len() ==> all[h.len() + o.len() + d.len() + i] == (
                #[trigger] c[i]).primary_term@
            &&& forall|i: int|
                0 <= i < j.len() ==> all[h.len() + o.len() + d.len() + c.len() + i] == (
                #[trigger] j[i]).primary_term@
        }),
{
}

proof fn lemma_counted_concat(a: Seq<Seq<char>>, b: Seq<Seq<char>>)
    ensures
        density::counted(a + b) == density::counted(a) + density::counted(b),
    decreases b.len(),
{
    if b.len() == 0 {
        assert(a + b =~= a);
    } else {
        lemma_counted_concat(a, b.drop_last());
        assert((a + b).drop_last() =~= a + b.drop_last());
    }
}

/// The number of words of two texts with white space between them is the sum of
/// theirs. A text without white space is one word where it holds a letter or a
/// digit, else none.
pub proof fn words_add_up(a: Seq<char>, gap: Seq<char>, b: Seq<char>)
    requires
        gap.len() > 0,
        words::all_white(gap),
    ensures
        density::word_count(a + gap + b) == density::word_count(a) + density::word_count(b),
        density::word_count(Seq::empty()) == 0,
        words::no_white(a) && a.len() > 0 ==> density::word_count(a) == if exists|i: int|
            0 <= i < a.len() && text::unicode_alphanumeric(#[trigger] a[i]) {
            1nat
        } else {
            0nat
        },
{
    words::words_are_parted_by_white_space(a, gap, b);
    lemma_counted_concat(text::words(a), text::words(b));
    if words::no_white(a) && a.len() > 0 {
        assert(seq![a].drop_last() =~= Seq::<Seq<char>>::empty());
        assert(density::counted(seq![a].drop_last()) == 0);
        assert(density::counted(seq![a]) == density::counted(text::words(a)));
    }
}

/// The band of a density depends on the ratio alone. Of a hundred words fewer
/// than two are too few, two are silent, three to five are in the upper range,
/// and more are too many.
pub proof fn bands_are_percentages(n: nat, d: nat, k: nat)
    requires
        k > 0,
    ensures
        density::band_of(n * k, d * k) == density::band_of(n, d),
        density::band_of(n, 0) == DensityBand::Low,
        density::band_of(n, 100) == if n < 2 {
            DensityBand::Low
        } else if n < 3 {
            DensityBand::Silent
        } else if n <= 5 {
            DensityBand::Informational
        } else {
            DensityBand::Over
        },
{
    assert(100 * (n * k) == (100 * n) * k) by (nonlinear_arith);
    assert(2 * (d * k) == (2 * d) * k) by (nonlinear_arith);
    assert(3 * (d * k) == (3 * d) * k) by (nonlinear_arith);
    assert(5 * (d * k) == (5 * d) * k) by (nonlinear_arith);
    assert(d * k == 0 <==> d == 0) by (nonlinear_arith)
        requires
            k > 0,
    ;
    assert(((100 * n) * k < (2 * d) * k) <==> (100 * n < 2 * d)) by (nonlinear_arith)
        requires
            k > 0,
    ;
    assert(((100 * n) * k < (3 * d) * k) <==> (100 * n < 3 * d)) by (nonlinear_arith)
        requires
            k > 0,
    ;
    assert(((100 * n) * k <= (5 * d) * k) <==> (100 * n <= 5 * d)) by (nonlinear_arith)
        requires
            k > 0,
    ;
}

} // verus!
