//! Keyword density: how often the terms of a catalogue stand in a resume, as
//! whole words and in any case, against the number of its words.

use vstd::prelude::*;
use regex::Regex;
use crate::domain::KeywordSet;
use crate::text;

verus! {

// ---------------------------------------------------------------------------
// Regular expressions
// ---------------------------------------------------------------------------

/// `c` has a meaning of its own in a regular expression.
pub open spec fn is_meta(c: char) -> bool {
    c == '\\' || c == '.' || c == '+' || c == '*' || c == '?' || c == '(' || c == ')' || c == '|'
        || c == '[' || c == ']' || c == '{' || c == '}' || c == '^' || c == '$' || c == '#' || c
        == '&' || c == '-' || c == '~'
}

/// `s` with a backslash in front of every character that has a meaning of its
/// own.
pub open spec fn escaped(s: Seq<char>) -> Seq<char>
    decreases s.len(),
{
    if s.len() == 0 {
        Seq::empty()
    } else if is_meta(s.last()) {
        escaped(s.drop_last()).push('\\').push(s.last())
    } else {
        escaped(s.drop_last()).push(s.last())
    }
}

/// How many matches `Regex::find_iter` finds for a pattern in a text; none where
/// the pattern does not compile.
pub uninterp spec fn match_count(pattern: Seq<char>, text: Seq<char>) -> Option<nat>;

/// `regex::escape`: a backslash in front of every character with a meaning of
/// its own, every other character as it stands.
#[verifier::external_body]
fn escape(s: &str) -> (r: String)
    ensures
        r@ == escaped(s@),
{
    regex::escape(s)
}

/// `Regex::new`, and the number of matches of `Regex::find_iter`. The result
/// depends on the pattern and the text alone.
#[verifier::external_body]
fn count_matches(pattern: &str, haystack: &str) -> (r: Option<usize>)
    ensures
        match r {
            Some(n) => match_count(pattern@, haystack@) == Some(n as nat),
            None => match_count(pattern@, haystack@) is None,
        },
{
    Regex::new(pattern).ok().map(|re| re.find_iter(haystack).count())
}

// ---------------------------------------------------------------------------
// Words and terms
// ---------------------------------------------------------------------------

/// `s` holds a letter or a digit.
pub open spec fn has_alphanumeric(s: Seq<char>) -> bool {
    exists|i: int| 0 <= i < s.len() && text::unicode_alphanumeric(#[trigger] s[i])
}

/// How many of the tokens hold a letter or a digit.
pub open spec fn counted(tokens: Seq<Seq<char>>) -> nat
    decreases tokens.len(),
{
    if tokens.len() == 0 {
        0
    } else {
        counted(tokens.drop_last()) + if has_alphanumeric(tokens.last()) {
            1nat
        } else {
            0nat
        }
    }
}

/// The number of words of a text: of its tokens that hold a letter or a digit.
pub open spec fn word_count(s: Seq<char>) -> nat {
    counted(text::words(s))
}

/// A term in the form in which terms are compared.
pub open spec fn fold(term: Seq<char>) -> Seq<char> {
    text::unicode_lowercase_text(term)
}

/// Some term of `terms` is `term`, in any case.
pub open spec fn listed(terms: Seq<Seq<char>>, term: Seq<char>) -> bool {
    exists|i: int| 0 <= i < terms.len() && fold(#[trigger] terms[i]) == fold(term)
}

/// The terms without white space around them, without blank ones, and each once:
/// of terms that differ in case alone the first stays.
pub open spec fn distinct(terms: Seq<Seq<char>>) -> Seq<Seq<char>>
    decreases terms.len(),
{
    if terms.len() == 0 {
        Seq::empty()
    } else {
        let before = distinct(terms.drop_last());
        let term = text::trimmed(terms.last());
        if term.len() == 0 || listed(before, term) {
            before
        } else {
            before.push(term)
        }
    }
}

/// The pattern that matches a term as a whole word, in any case: no word
/// character stands in front of a match or behind it. The term itself may start
/// or end with something else.
pub open spec fn term_pattern(term: Seq<char>) -> Seq<char> {
    "(?i)\\b{start-half}"@ + escaped(term) + "\\b{end-half}"@
}

/// The sum of two counts, or the largest count where it is larger.
pub open spec fn saturated(a: u32, b: u32) -> u32 {
    if a + b <= u32::MAX {
        (a + b) as u32
    } else {
        u32::MAX
    }
}

/// The counts that are there together; each counts modulo 2^32.
pub open spec fn total_of(counts: Seq<Option<nat>>) -> u32
    decreases counts.len(),
{
    if counts.len() == 0 {
        0
    } else {
        let before = total_of(counts.drop_last());
        match counts.last() {
            Some(n) => saturated(before, n as u32),
            None => before,
        }
    }
}

/// Counts as mathematical integers.
pub open spec fn count_models(counts: Seq<Option<usize>>) -> Seq<Option<nat>> {
    Seq::new(
        counts.len(),
        |i: int|
            match counts[i] {
                Some(n) => Some(n as nat),
                None => None,
            },
    )
}

/// The matches of each term in a text; none where the pattern of the term does
/// not compile.
pub open spec fn counts_of(terms: Seq<Seq<char>>, s: Seq<char>) -> Seq<Option<nat>> {
    Seq::new(terms.len(), |i: int| match_count(term_pattern(terms[i]), s))
}

/// The matches of all terms in a text together. A term whose pattern does not
/// compile is passed over.
pub open spec fn matches_of(terms: Seq<Seq<char>>, s: Seq<char>) -> u32 {
    total_of(counts_of(terms, s))
}

/// The sum of the counts that are there, or the largest number where the sum is
/// larger.
pub fn total_matches(counts: &Vec<Option<usize>>) -> (r: u32)
    ensures
        r == total_of(count_models(counts@)),
{
    let ghost all = count_models(counts@);
    let mut total: u32 = 0;
    for i in 0..counts.len()
        invariant
            all == count_models(counts@),
            total == total_of(all.take(i as int)),
    {
        assert(all.take(i + 1).drop_last() =~= all.take(i as int));
        assert(all.take(i + 1).last() == all[i as int]);
        if let Some(n) = counts[i] {
            total = total.saturating_add(#[verifier::truncate] (n as u32));
        }
    }
    assert(all.take(counts@.len() as int) =~= all);
    total
}

fn holds_alphanumeric(s: &str) -> (r: bool)
    ensures
        r == has_alphanumeric(s@),
{
    let chars = text::chars_of(s);
    for i in 0..chars.len()
        invariant
            chars@ == s@,
            forall|k: int| 0 <= k < i ==> !text::unicode_alphanumeric(#[trigger] s@[k]),
    {
        if text::is_alphanumeric(chars[i]) {
            assert(text::unicode_alphanumeric(s@[i as int]));
            return true;
        }
    }
    false
}

fn count_words(s: &str) -> (r: u32)
    ensures
        r == word_count(s@) as u32,
{
    let tokens = text::split_words(s);
    let ghost all = text::views(tokens@);
    let mut count: usize = 0;
    for i in 0..tokens.len()
        invariant
            all == text::views(tokens@),
            count == counted(all.take(i as int)),
            count <= i,
    {
        assert(all.take(i + 1).drop_last() =~= all.take(i as int));
        assert(all[i as int] == tokens@[i as int]@);
        if holds_alphanumeric(tokens[i].as_str()) {
            count += 1;
        }
    }
    assert(all.take(tokens@.len() as int) =~= all);
    #[verifier::truncate]
    (count as u32)
}

fn is_listed(keys: &Vec<String>, key: &str, Ghost(terms): Ghost<Seq<Seq<char>>>, Ghost(term): Ghost<
    Seq<char>,
>) -> (r: bool)
    requires
        keys@.len() == terms.len(),
        forall|i: int| 0 <= i < terms.len() ==> (#[trigger] keys@[i])@ == fold(terms[i]),
        key@ == fold(term),
    ensures
        r == listed(terms, term),
{
    for i in 0..keys.len()
        invariant
            keys@.len() == terms.len(),
            key@ == fold(term),
            forall|k: int| 0 <= k < terms.len() ==> (#[trigger] keys@[k])@ == fold(terms[k]),
            forall|k: int| 0 <= k < i ==> fold(#[trigger] terms[k]) != fold(term),
    {
        assert(keys@[i as int]@ == fold(terms[i as int]));
        if text::same_text(keys[i].as_str(), key) {
            return true;
        }
    }
    false
}

fn unique_primary_terms(keywords: &KeywordSet) -> (r: Vec<String>)
    ensures
        text::views(r@) == distinct(keywords.terms()),
{
    let terms = keywords.all_primary_terms();
    let ghost all = keywords.terms();
    let mut seen: Vec<String> = Vec::new();
    let mut out: Vec<String> = Vec::new();
    assert(text::views(out@) =~= distinct(all.take(0)));
    for i in 0..terms.len()
        invariant
            all == keywords.terms(),
            terms@.len() == all.len(),
            forall|k: int| 0 <= k < terms@.len() ==> (#[trigger] terms@[k])@ == all[k],
            text::views(out@) == distinct(all.take(i as int)),
            seen@.len() == out@.len(),
            forall|k: int| 0 <= k < out@.len() ==> (#[trigger] seen@[k])@ == fold(out@[k]@),
    {
        let term = text::trim(terms[i]);
        assert(all.take(i + 1).drop_last() =~= all.take(i as int));
        assert(all.take(i + 1).last() == terms@[i as int]@);
        if !term.as_str().is_empty() {
            let key = text::lowercase_text(term.as_str());
            let ghost before = out@;
            if !is_listed(&seen, key.as_str(), Ghost(text::views(out@)), Ghost(term@)) {
                seen.push(key);
                out.push(term);
                assert(text::views(out@) =~= text::views(before).push(term@));
            }
        }
    }
    assert(all.take(all.len() as int) =~= all);
    out
}

// ---------------------------------------------------------------------------
// The measure
// ---------------------------------------------------------------------------

/// The matches of all terms, and the number of words.
#[derive(Debug, Clone, Copy, PartialEq, Eq, Structural)]
pub struct DensityReport {
    pub numerator: u32,
    pub denominator: u32,
}

/// Counts the matches of each distinct primary term of the catalogue in a text,
/// and the words of the text.
pub fn measure(final_md: &str, keywords: &KeywordSet) -> (r: DensityReport)
    ensures
        r.numerator == matches_of(distinct(keywords.terms()), final_md@),
        r.denominator == word_count(final_md@) as u32,
{
    let denominator = count_words(final_md);
    let terms = unique_primary_terms(keywords);
    let ghost all = text::views(terms@);
    let mut counts: Vec<Option<usize>> = Vec::new();
    for i in 0..terms.len()
        invariant
            all == text::views(terms@),
            counts@.len() == i,
            forall|k: int|
                0 <= k < i ==> #[trigger] count_models(counts@)[k] == counts_of(all, final_md@)[k],
    {
        let body = escape(terms[i].as_str());
        let pattern = text::concat3("(?i)\\b{start-half}", body.as_str(), "\\b{end-half}");
        let ghost before = counts@;
        counts.push(count_matches(pattern.as_str(), final_md));
        assert forall|k: int| 0 <= k < i + 1 implies #[trigger] count_models(counts@)[k]
            == counts_of(all, final_md@)[k] by {
            if k < i {
                assert(count_models(counts@)[k] == count_models(before)[k]);
            }
        }
    }
    assert(count_models(counts@) =~= counts_of(all, final_md@));
    let numerator = total_matches(&counts);
    DensityReport { numerator, denominator }
}

/// How a density is judged.
#[derive(Debug, Clone, Copy, PartialEq, Eq, Structural)]
pub enum DensityBand {
    /// Below two percent.
    Low,
    /// From two percent to below three.
    Silent,
    /// From three percent to five.
    Informational,
    /// Above five percent.
    Over,
}

/// The band of `numerator` matches among `denominator` words; a text without a
/// word has the density zero.
pub open spec fn band_of(numerator: nat, denominator: nat) -> DensityBand {
    if denominator == 0 || 100 * numerator < 2 * denominator {
        DensityBand::Low
    } else if 100 * numerator < 3 * denominator {
        DensityBand::Silent
    } else if 100 * numerator <= 5 * denominator {
        DensityBand::Informational
    } else {
        DensityBand::Over
    }
}

/// The band of `numerator` matches among `denominator` words.
pub fn map_band(numerator: u32, denominator: u32) -> (r: DensityBand)
    ensures
        r == band_of(numerator as nat, denominator as nat),
{
    let n: u64 = 100 * (numerator as u64);
    let d: u64 = denominator as u64;
    if d == 0 || n < 2 * d {
        DensityBand::Low
    } else if n < 3 * d {
        DensityBand::Silent
    } else if n <= 5 * d {
        DensityBand::Informational
    } else {
        DensityBand::Over
    }
}

impl DensityBand {
    /// The log event of the band, where there is one.
    pub fn event(&self) -> (r: Option<&'static str>)
        ensures
            match *self {
                DensityBand::Low => r matches Some(e) && e@ == "density.low"@,
                DensityBand::Silent => r is None,
                DensityBand::Informational => r matches Some(e) && e@
                    == "density.informational_upper"@,
                DensityBand::Over => r matches Some(e) && e@ == "density.over_ceiling"@,
            },
    {
        match self {
            DensityBand::Low => Some("density.low"),
            DensityBand::Silent => None,
            DensityBand::Informational => Some("density.informational_upper"),
            DensityBand::Over => Some("density.over_ceiling"),
        }
    }

    /// Whether the log event of the band is a warning.
    pub fn is_warning(&self) -> (r: bool)
        ensures
            r == (*self is Low || *self is Over),
    {
        match self {
            DensityBand::Low => true,
            DensityBand::Silent => false,
            DensityBand::Informational => false,
            DensityBand::Over => true,
        }
    }
}

// ---------------------------------------------------------------------------
// Laws
// ---------------------------------------------------------------------------

/// No two terms of a list are the same, in any case.
pub open spec fn all_distinct(terms: Seq<Seq<char>>) -> bool {
    forall|i: int, j: int|
        0 <= i < j < terms.len() ==> fold(#[trigger] terms[i]) != fold(#[trigger] terms[j])
}

/// Every term is counted under one pattern and under one only: the distinct
/// terms differ from each other in more than case, none of them is blank, and
/// each term that is not blank is among them.
pub proof fn each_term_counts_once(terms: Seq<Seq<char>>)
    ensures
        all_distinct(distinct(terms)),
        forall|i: int| 0 <= i < distinct(terms).len() ==> (#[trigger] distinct(terms)[i]).len() > 0,
        forall|i: int|
            0 <= i < terms.len() && text::trimmed(#[trigger] terms[i]).len() > 0 ==> listed(
                distinct(terms),
                text::trimmed(terms[i]),
            ),
    decreases terms.len(),
{
    if terms.len() > 0 {
        let earlier = terms.drop_last();
        let before = distinct(earlier);
        let now = distinct(terms);
        let term = text::trimmed(terms.last());
        each_term_counts_once(earlier);
        assert forall|i: int|
            0 <= i < terms.len() && text::trimmed(#[trigger] terms[i]).len() > 0 implies listed(
            now,
            text::trimmed(terms[i]),
        ) by {
            if i < earlier.len() {
                assert(earlier[i] == terms[i]);
                assert(listed(before, text::trimmed(terms[i])));
                let k = choose|k: int|
                    0 <= k < before.len() && fold(#[trigger] before[k]) == fold(
                        text::trimmed(terms[i]),
                    );
                assert(now[k] == before[k]);
            } else if !listed(before, term) {
                assert(now.last() == term);
                assert(now[now.len() - 1] == term);
            }
        }
        if !(term.len() == 0 || listed(before, term)) {
            assert forall|i: int, j: int| 0 <= i < j < now.len() implies fold(#[trigger] now[i])
                != fold(#[trigger] now[j]) by {
                assert(now[i] == before[i]);
                if j < before.len() {
                    assert(now[j] == before[j]);
                } else {
                    assert(now[j] == term);
                }
            }
        }
    }
}

/// More matches never lower the band, and more words never raise it.
pub proof fn bands_follow_the_ratio(n1: nat, d1: nat, n2: nat, d2: nat)
    requires
        n1 <= n2,
        0 < d2 <= d1,
    ensures
        band_of(n2, d2) is Low ==> band_of(n1, d1) is Low,
        band_of(n2, d2) is Silent ==> band_of(n1, d1) is Low || band_of(n1, d1) is Silent,
        band_of(n1, d1) is Over ==> band_of(n2, d2) is Over,
{
}

} // verus!
