//! Slugs: filesystem-safe names made from posting titles.
//!
//! A title is lowercased character by character, cut into its runs of letters
//! and digits, and joined again with single hyphens. The result is cut to
//! [`MAX_SLUG_CHARS`] characters and stripped of a trailing hyphen; an empty
//! result becomes `untitled`. Letters keep their diacritics.

use vstd::prelude::*;
use crate::text;

verus! {

/// The longest slug, in characters.
pub const MAX_SLUG_CHARS: usize = 60;

/// `c` may stand inside a word of a slug. The hyphen, which separates the
/// words, never does.
pub open spec fn word_char(c: char) -> bool {
    c != '-' && text::unicode_alphanumeric(c)
}

/// `s` with each character replaced by its lowercase mapping.
pub open spec fn lowered(s: Seq<char>) -> Seq<char>
    decreases s.len(),
{
    if s.len() == 0 {
        Seq::empty()
    } else {
        lowered(s.drop_last()) + text::unicode_lowercase(s.last())
    }
}

/// `s` without its trailing hyphens.
pub open spec fn without_trailing_hyphens(s: Seq<char>) -> Seq<char>
    decreases s.len(),
{
    if s.len() > 0 && s.last() == '-' {
        without_trailing_hyphens(s.drop_last())
    } else {
        s
    }
}

/// The first `max` characters of `s`, or all of it where it is shorter.
pub open spec fn clipped(s: Seq<char>, max: nat) -> Seq<char> {
    if s.len() <= max {
        s
    } else {
        s.take(max as int)
    }
}

/// The words of a title: the runs of letters and digits in its lowercase form.
pub open spec fn title_words(title: Seq<char>) -> Seq<Seq<char>> {
    text::runs(lowered(title), |c: char| word_char(c))
}

/// The slug of a title before the fallback: its words joined by hyphens, cut to
/// the limit, without a hyphen at the end.
pub open spec fn bare_slug(title: Seq<char>) -> Seq<char> {
    without_trailing_hyphens(
        clipped(text::joined(title_words(title), seq!['-']), MAX_SLUG_CHARS as nat),
    )
}

/// The slug of a title.
pub open spec fn slug_of(title: Seq<char>) -> Seq<char> {
    if bare_slug(title).len() == 0 {
        "untitled"@
    } else {
        bare_slug(title)
    }
}

/// What is known of the lowercase mapping of a character that has been looked up.
pub open spec fn looked_up(c: char) -> bool {
    let low = text::unicode_lowercase(c);
    &&& forall|i: int| 0 <= i < low.len() ==> text::settled(#[trigger] low[i])
    &&& text::ascii_char(c) ==> low == seq![text::ascii_lower(c)]
}

/// The lowercase form of `s`, character by character.
fn lower_chars(s: &str) -> (r: Vec<char>)
    ensures
        r@ == lowered(s@),
        forall|i: int| 0 <= i < s@.len() ==> looked_up(#[trigger] s@[i]),
{
    let chars = text::chars_of(s);
    let mut out: Vec<char> = Vec::new();
    for i in 0..chars.len()
        invariant
            chars@ == s@,
            out@ == lowered(s@.take(i as int)),
            forall|k: int| 0 <= k < i ==> looked_up(#[trigger] s@[k]),
    {
        let mut low = text::lowercase_of(chars[i]);
        assert(looked_up(s@[i as int]));
        out.append(&mut low);
        assert(s@.take(i + 1).drop_last() =~= s@.take(i as int));
    }
    assert(s@.take(s@.len() as int) =~= s@);
    out
}

/// The number of characters that are left of the first `max` characters of `s`
/// once trailing hyphens are gone.
fn kept_chars(s: &Vec<char>, max: usize) -> (r: usize)
    ensures
        r <= s@.len(),
        s@.take(r as int) == without_trailing_hyphens(clipped(s@, max as nat)),
{
    let mut end: usize = if s.len() <= max {
        s.len()
    } else {
        max
    };
    assert(s@.take(end as int) =~= clipped(s@, max as nat));
    while end > 0 && s[end - 1] == '-'
        invariant
            end <= s@.len(),
            without_trailing_hyphens(s@.take(end as int)) == without_trailing_hyphens(
                clipped(s@, max as nat),
            ),
        decreases end,
    {
        assert(s@.take(end as int).drop_last() =~= s@.take(end - 1));
        end -= 1;
    }
    end
}

/// The slug of a title before the fallback.
fn bare(input: &str) -> (r: String)
    ensures
        r@ == bare_slug(input@),
        bare_slug(r@) == r@,
        bare_slug(text::ascii_lowercase(input@)) == r@,
        is_plain(input@) ==> r@ == input@,
        forall|i: int|
            0 <= i < r@.len() ==> #[trigger] r@[i] == '-' || text::unicode_alphanumeric(r@[i]),
        forall|i: int|
            0 <= i < r@.len() && text::ascii_char(#[trigger] r@[i]) ==> r@[i] == '-' || ('a'
                <= r@[i] && r@[i] <= 'z') || ('0' <= r@[i] && r@[i] <= '9'),
{
    let low = lower_chars(input);
    let mut kept: Vec<bool> = Vec::new();
    for i in 0..low.len()
        invariant
            kept@.len() == i,
            forall|k: int| 0 <= k < i ==> kept@[k] == word_char(#[trigger] low@[k]),
            forall|k: int|
                0 <= k < i && text::ascii_char(low@[k]) ==> text::unicode_alphanumeric(
                    #[trigger] low@[k],
                ) == (text::ascii_letter(low@[k]) || text::ascii_digit(low@[k])),
            forall|k: int| 0 <= k < i ==> looked_up(#[trigger] low@[k]),
    {
        let c = low[i];
        let _again = text::lowercase_of(c);
        assert(looked_up(low@[i as int]));
        let counts = text::is_alphanumeric(c);
        kept.push(c != '-' && counts);
    }
    let words = text::split_runs(&low, &kept, Ghost(|c: char| word_char(c)));
    let hyphen = text::lowercase_of('-');
    let separator = text::string_of(&hyphen);
    assert(separator@ =~= seq!['-']);
    let full = text::join(&words, separator.as_str());
    let chars = text::chars_of(full.as_str());
    let end = kept_chars(&chars, MAX_SLUG_CHARS);
    assert(chars@.subrange(0, end as int) =~= chars@.take(end as int));
    let out = text::string_of_range(&chars, 0, end);
    proof {
        assert(text::settled('-')) by {
            assert(hyphen@[0] == '-');
        }
        lemma_bare_slug_stays(input@);
        lemma_case_does_not_count(input@);
        lemma_slug_is_ascii_small(input@, low@, out@);
        if is_plain(input@) {
            lemma_plain_is_settled(input@);
            lemma_settled_stays(input@);
            assert forall|i: int| 0 <= i < input@.len() implies word_char(#[trigger] input@[i]) by {
                assert(text::ascii_char(low@[i]));
            }
            lemma_shaped_is_own_slug(input@);
        }
    }
    out
}

/// Sanitizes a raw title into a slug. A slug is its own slug, and the case of
/// ASCII letters does not count.
pub fn sanitize_title(input: &str) -> (r: String)
    ensures
        r@ == slug_of(input@),
        slug_shape(r@),
        1 <= r@.len() <= MAX_SLUG_CHARS,
        slug_of(r@) == r@,
        slug_of(text::ascii_lowercase(input@)) == r@,
        forall|i: int|
            0 <= i < r@.len() ==> #[trigger] r@[i] == '-' || text::unicode_alphanumeric(r@[i]),
        forall|i: int|
            0 <= i < r@.len() && text::ascii_char(#[trigger] r@[i]) ==> r@[i] == '-' || ('a'
                <= r@[i] && r@[i] <= 'z') || ('0' <= r@[i] && r@[i] <= '9'),
{
    let slug = bare(input);
    proof {
        reveal_strlit("untitled");
        lemma_bare_slug_shape(input@);
        lemma_bare_slug_shape("untitled"@);
    }
    if slug.as_str().is_empty() {
        return bare("untitled");
    }
    slug
}

// ---------------------------------------------------------------------------
// Laws
// ---------------------------------------------------------------------------

/// No two neighbours of `s` are both hyphens.
pub open spec fn no_double_hyphen(s: Seq<char>) -> bool {
    forall|i: int| 0 <= i < s.len() - 1 ==> !(#[trigger] s[i] == '-' && s[i + 1] == '-')
}

/// Every character of `s` is a hyphen or a word character.
pub open spec fn slug_chars(s: Seq<char>) -> bool {
    forall|i: int| 0 <= i < s.len() ==> (#[trigger] s[i] == '-' || word_char(s[i]))
}

/// A nonempty run of word characters.
pub open spec fn is_word(s: Seq<char>) -> bool {
    s.len() > 0 && forall|i: int| 0 <= i < s.len() ==> word_char(#[trigger] s[i])
}

/// Every part is a nonempty run of word characters.
pub open spec fn all_words(parts: Seq<Seq<char>>) -> bool {
    forall|i: int| 0 <= i < parts.len() ==> is_word(#[trigger] parts[i])
}

proof fn lemma_runs_are_words(s: Seq<char>)
    ensures
        all_words(text::runs(s, |c: char| word_char(c))),
    decreases s.len(),
{
    let keep = |c: char| word_char(c);
    let all = text::runs(s, keep);
    if s.len() == 0 {
    } else if !keep(s.first()) {
        lemma_runs_are_words(s.drop_first());
    } else {
        text::lemma_run_length(s, keep);
        let n = text::run_length(s, keep) as int;
        lemma_runs_are_words(s.skip(n));
        let head = s.take(n);
        assert(is_word(head)) by {
            assert forall|i: int| 0 <= i < head.len() implies word_char(#[trigger] head[i]) by {
                assert(keep(s[i]));
            }
        }
        let rest = text::runs(s.skip(n), keep);
        assert forall|i: int| 0 <= i < all.len() implies is_word(#[trigger] all[i]) by {
            if i == 0 {
                assert(all[0] == head);
            } else {
                assert(all[i] == rest[i - 1]);
            }
        }
    }
}

proof fn lemma_join_of_words(words: Seq<Seq<char>>)
    requires
        all_words(words),
    ensures
        slug_chars(text::joined(words, seq!['-'])),
        no_double_hyphen(text::joined(words, seq!['-'])),
        words.len() > 0 ==> text::joined(words, seq!['-']).len() > 0,
        words.len() > 0 ==> word_char(text::joined(words, seq!['-']).first()),
        words.len() > 0 ==> word_char(text::joined(words, seq!['-']).last()),
    decreases words.len(),
{
    let all = text::joined(words, seq!['-']);
    if words.len() > 0 {
        let before = words.drop_last();
        let word = words.last();
        assert(is_word(word));
        assert forall|i: int| 0 <= i < before.len() implies is_word(#[trigger] before[i]) by {
            assert(before[i] == words[i]);
        }
        lemma_join_of_words(before);
        if before.len() > 0 {
            let head = text::joined(before, seq!['-']);
            assert(all == head + seq!['-'] + word);
            assert forall|i: int| 0 <= i < all.len() implies (#[trigger] all[i] == '-' || word_char(
                all[i],
            )) by {
                if i < head.len() {
                    assert(all[i] == head[i]);
                } else if i > head.len() {
                    assert(all[i] == word[i - head.len() - 1]);
                }
            }
            assert forall|i: int| 0 <= i < all.len() - 1 implies !(#[trigger] all[i] == '-'
                && all[i + 1] == '-') by {
                if i + 1 < head.len() {
                    assert(all[i] == head[i]);
                    assert(all[i + 1] == head[i + 1]);
                } else if i + 1 == head.len() {
                    assert(all[i] == head.last());
                } else {
                    assert(all[i + 1] == word[i + 1 - head.len() - 1]);
                }
            }
            assert(all.first() == head.first());
            assert(all.last() == word.last());
            assert(word.last() == word[word.len() - 1]);
        } else {
            assert(all == word);
            assert(all.first() == word[0]);
            assert(all.last() == word[word.len() - 1]);
        }
    }
}

proof fn lemma_stripping_keeps_a_prefix(s: Seq<char>)
    ensures
        without_trailing_hyphens(s).len() <= s.len(),
        without_trailing_hyphens(s) == s.take(without_trailing_hyphens(s).len() as int),
        without_trailing_hyphens(s).len() > 0 ==> without_trailing_hyphens(s).last() != '-',
        s.len() > 0 && s.first() != '-' ==> without_trailing_hyphens(s).len() > 0,
    decreases s.len(),
{
    if s.len() > 0 && s.last() == '-' {
        lemma_stripping_keeps_a_prefix(s.drop_last());
        let n = without_trailing_hyphens(s).len() as int;
        assert(s.drop_last().take(n) =~= s.take(n));
        if s.first() != '-' {
            assert(s.len() > 1);
            assert(s.drop_last().first() == s.first());
        }
    } else {
        assert(s.take(s.len() as int) =~= s);
    }
}

/// A slug is never empty, never longer than the limit, never starts or ends
/// with a hyphen, never holds two hyphens in a row, and apart from the fallback
/// consists of letters, digits and hyphens alone. The fallback comes exactly
/// for a title without a letter or digit.
pub proof fn slug_is_well_formed(title: Seq<char>)
    ensures
        slug_of(title).len() > 0,
        slug_of(title).len() <= MAX_SLUG_CHARS,
        slug_of(title).first() != '-',
        slug_of(title).last() != '-',
        no_double_hyphen(slug_of(title)),
        title_words(title).len() > 0 ==> slug_chars(slug_of(title)),
        title_words(title).len() > 0 ==> slug_of(title) == bare_slug(title),
        title_words(title).len() == 0 ==> slug_of(title) == "untitled"@,
{
    reveal_strlit("untitled");
    lemma_bare_slug_shape(title);
}

/// A short word of small ASCII letters and digits.
pub open spec fn is_plain(s: Seq<char>) -> bool {
    &&& 0 < s.len() <= MAX_SLUG_CHARS
    &&& forall|i: int|
        0 <= i < s.len() ==> ('a' <= #[trigger] s[i] && s[i] <= 'z') || text::ascii_digit(s[i])
}

/// Every character of `s` is its own lowercase mapping.
pub open spec fn all_settled(s: Seq<char>) -> bool {
    forall|i: int| 0 <= i < s.len() ==> text::settled(#[trigger] s[i])
}

/// Every character of `s` has been looked up.
pub open spec fn all_looked_up(s: Seq<char>) -> bool {
    forall|i: int| 0 <= i < s.len() ==> looked_up(#[trigger] s[i])
}

proof fn lemma_settled_stays(s: Seq<char>)
    requires
        all_settled(s),
    ensures
        lowered(s) == s,
    decreases s.len(),
{
    if s.len() > 0 {
        let before = s.drop_last();
        assert forall|i: int| 0 <= i < before.len() implies text::settled(#[trigger] before[i]) by {
            assert(before[i] == s[i]);
        }
        lemma_settled_stays(before);
        assert(text::settled(s[s.len() - 1]));
        assert(before + seq![s.last()] =~= s);
    } else {
        assert(s =~= Seq::empty());
    }
}

proof fn lemma_lowered_is_settled(s: Seq<char>)
    requires
        all_looked_up(s),
    ensures
        all_settled(lowered(s)),
    decreases s.len(),
{
    if s.len() > 0 {
        let before = s.drop_last();
        assert forall|i: int| 0 <= i < before.len() implies looked_up(#[trigger] before[i]) by {
            assert(before[i] == s[i]);
        }
        lemma_lowered_is_settled(before);
        assert(looked_up(s[s.len() - 1]));
        let head = lowered(before);
        let tail = text::unicode_lowercase(s.last());
        let all = head + tail;
        assert forall|i: int| 0 <= i < all.len() implies text::settled(#[trigger] all[i]) by {
            if i < head.len() {
                assert(all[i] == head[i]);
            } else {
                assert(all[i] == tail[i - head.len()]);
            }
        }
    }
}

/// Every part consists of characters that are their own lowercase mapping.
pub open spec fn settled_parts(parts: Seq<Seq<char>>) -> bool {
    forall|i: int| 0 <= i < parts.len() ==> all_settled(#[trigger] parts[i])
}

proof fn lemma_runs_are_settled(s: Seq<char>)
    requires
        all_settled(s),
    ensures
        settled_parts(text::runs(s, |c: char| word_char(c))),
    decreases s.len(),
{
    let keep = |c: char| word_char(c);
    let all = text::runs(s, keep);
    if s.len() == 0 {
    } else if !keep(s.first()) {
        let rest = s.drop_first();
        assert forall|i: int| 0 <= i < rest.len() implies text::settled(#[trigger] rest[i]) by {
            assert(rest[i] == s[i + 1]);
        }
        lemma_runs_are_settled(rest);
    } else {
        text::lemma_run_length(s, keep);
        let n = text::run_length(s, keep) as int;
        let rest = s.skip(n);
        assert forall|i: int| 0 <= i < rest.len() implies text::settled(#[trigger] rest[i]) by {
            assert(rest[i] == s[i + n]);
        }
        lemma_runs_are_settled(rest);
        let later = text::runs(rest, keep);
        assert forall|i: int| 0 <= i < all.len() implies all_settled(#[trigger] all[i]) by {
            if i == 0 {
                assert(all[0] == s.take(n));
                assert forall|k: int| 0 <= k < n implies text::settled(#[trigger] s.take(n)[k]) by {
                    assert(s.take(n)[k] == s[k]);
                }
            } else {
                assert(all[i] == later[i - 1]);
            }
        }
    }
}

proof fn lemma_join_is_settled(words: Seq<Seq<char>>)
    requires
        text::settled('-'),
        settled_parts(words),
    ensures
        all_settled(text::joined(words, seq!['-'])),
    decreases words.len(),
{
    if words.len() > 0 {
        let before = words.drop_last();
        let word = words.last();
        assert(all_settled(words[words.len() - 1]));
        assert forall|i: int| 0 <= i < before.len() implies all_settled(#[trigger] before[i]) by {
            assert(before[i] == words[i]);
        }
        lemma_join_is_settled(before);
        if before.len() > 0 {
            let head = text::joined(before, seq!['-']);
            let all = head + seq!['-'] + word;
            assert forall|i: int| 0 <= i < all.len() implies text::settled(#[trigger] all[i]) by {
                if i < head.len() {
                    assert(all[i] == head[i]);
                } else if i > head.len() {
                    assert(all[i] == word[i - head.len() - 1]);
                }
            }
        }
    }
}

/// The shape of a slug: letters, digits and single hyphens, none of them at an
/// end.
pub open spec fn slug_shape(s: Seq<char>) -> bool {
    &&& slug_chars(s)
    &&& no_double_hyphen(s)
    &&& s.len() > 0 ==> s.first() != '-' && s.last() != '-'
}

proof fn lemma_slug_rejoins(s: Seq<char>)
    requires
        slug_shape(s),
    ensures
        text::joined(text::runs(s, |c: char| word_char(c)), seq!['-']) == s,
        s.len() > 0 ==> text::runs(s, |c: char| word_char(c)).len() > 0,
    decreases s.len(),
{
    let keep = |c: char| word_char(c);
    let all = text::runs(s, keep);
    if s.len() == 0 {
        assert(text::joined(all, seq!['-']) =~= s);
    } else {
        assert(word_char(s[0]));
        text::lemma_run_length(s, keep);
        let n = text::run_length(s, keep) as int;
        let head = s.take(n);
        let rest = s.skip(n);
        if n == s.len() {
            assert(text::runs(rest, keep) =~= Seq::empty());
            assert(all =~= seq![head]);
            assert(seq![head].drop_last().len() == 0);
            assert(head =~= s);
        } else {
            assert(!keep(s[n]));
            assert(s[n] == '-');
            assert(rest.first() == '-');
            let tail = rest.drop_first();
            assert(s.last() == s[s.len() - 1]);
            assert(tail.len() > 0);
            assert(tail.last() == s.last());
            assert(tail.first() == s[n + 1]);
            assert(slug_shape(tail)) by {
                assert forall|i: int| 0 <= i < tail.len() implies (#[trigger] tail[i] == '-'
                    || word_char(tail[i])) by {
                    assert(tail[i] == s[i + n + 1]);
                }
                assert forall|i: int| 0 <= i < tail.len() - 1 implies !(#[trigger] tail[i] == '-'
                    && tail[i + 1] == '-') by {
                    assert(tail[i] == s[i + n + 1] && tail[i + 1] == s[i + n + 2]);
                }
            }
            lemma_slug_rejoins(tail);
            let later = text::runs(tail, keep);
            assert(text::runs(rest, keep) == later);
            assert(all == seq![head] + later);
            text::lemma_join_from_the_front(all, seq!['-']);
            assert(all.drop_first() =~= later);
            assert(head + seq!['-'] + tail =~= s);
        }
    }
}

pub proof fn lemma_bare_slug_shape(title: Seq<char>)
    ensures
        slug_shape(bare_slug(title)),
        bare_slug(title).len() <= MAX_SLUG_CHARS,
        bare_slug(title) == text::joined(title_words(title), seq!['-']).take(
            bare_slug(title).len() as int,
        ),
        bare_slug(title).len() <= text::joined(title_words(title), seq!['-']).len(),
        title_words(title).len() > 0 <==> bare_slug(title).len() > 0,
{
    let words = title_words(title);
    lemma_runs_are_words(lowered(title));
    lemma_join_of_words(words);
    let full = text::joined(words, seq!['-']);
    let cut = clipped(full, MAX_SLUG_CHARS as nat);
    lemma_stripping_keeps_a_prefix(cut);
    let bare = bare_slug(title);
    assert(bare =~= full.take(bare.len() as int));
    assert forall|i: int| 0 <= i < bare.len() implies bare[i] == full[i] by {}
    assert forall|i: int| 0 <= i < bare.len() implies (#[trigger] bare[i] == '-' || word_char(
        bare[i],
    )) by {
        assert(bare[i] == full[i]);
    }
    assert forall|i: int| 0 <= i < bare.len() - 1 implies !(#[trigger] bare[i] == '-' && bare[i + 1]
        == '-') by {
        assert(bare[i] == full[i]);
        assert(bare[i + 1] == full[i + 1]);
    }
    if words.len() > 0 {
        assert(cut.first() == full.first());
        assert(bare.first() == full.first());
    } else {
        assert(full.len() == 0);
    }
}

/// What has the shape of a slug, is short enough and is in small letters is its
/// own slug.
proof fn lemma_shaped_is_own_slug(s: Seq<char>)
    requires
        slug_shape(s),
        all_settled(s),
        s.len() <= MAX_SLUG_CHARS,
    ensures
        bare_slug(s) == s,
{
    lemma_settled_stays(s);
    lemma_slug_rejoins(s);
}

proof fn lemma_bare_slug_stays(title: Seq<char>)
    requires
        all_looked_up(title),
        text::settled('-'),
    ensures
        bare_slug(bare_slug(title)) == bare_slug(title),
{
    lemma_lowered_is_settled(title);
    lemma_runs_are_settled(lowered(title));
    lemma_join_is_settled(title_words(title));
    lemma_bare_slug_shape(title);
    let bare = bare_slug(title);
    let full = text::joined(title_words(title), seq!['-']);
    assert forall|i: int| 0 <= i < bare.len() implies text::settled(#[trigger] bare[i]) by {
        assert(bare[i] == full[i]);
    }
    lemma_shaped_is_own_slug(bare);
}

proof fn lemma_case_does_not_count(title: Seq<char>)
    requires
        all_looked_up(title),
    ensures
        lowered(text::ascii_lowercase(title)) == lowered(title),
    decreases title.len(),
{
    if title.len() > 0 {
        let before = title.drop_last();
        assert forall|i: int| 0 <= i < before.len() implies looked_up(#[trigger] before[i]) by {
            assert(before[i] == title[i]);
        }
        lemma_case_does_not_count(before);
        let c = title.last();
        assert(looked_up(title[title.len() - 1]));
        assert(text::ascii_lowercase(title).drop_last() =~= text::ascii_lowercase(before));
        assert(text::ascii_lowercase(title).last() == text::ascii_lower(c));
        if text::ascii_char(c) {
            assert(text::settled(text::unicode_lowercase(c)[0]));
        }
    } else {
        assert(text::ascii_lowercase(title) =~= title);
    }
}

proof fn lemma_plain_is_settled(title: Seq<char>)
    requires
        all_looked_up(title),
        is_plain(title),
    ensures
        all_settled(title),
{
    assert forall|i: int| 0 <= i < title.len() implies text::settled(#[trigger] title[i]) by {
        assert(looked_up(title[i]));
    }
}

/// A slug that is shorter than the limit by two was not cut.
pub proof fn lemma_short_slug_is_whole(title: Seq<char>)
    requires
        title_words(title).len() > 0,
        slug_of(title).len() < MAX_SLUG_CHARS - 1,
    ensures
        slug_of(title) == text::joined(title_words(title), seq!['-']),
{
    slug_is_well_formed(title);
    let words = title_words(title);
    lemma_runs_are_words(lowered(title));
    lemma_join_of_words(words);
    let full = text::joined(words, seq!['-']);
    if full.len() <= MAX_SLUG_CHARS {
        assert(full.last() != '-');
    } else {
        let cut = full.take(MAX_SLUG_CHARS as int);
        let n = MAX_SLUG_CHARS as int;
        if cut.last() == '-' {
            let once = cut.drop_last();
            assert(once.last() == full[n - 2]);
            assert(full[n - 1] == '-');
            assert(full[n - 2] != '-') by {
                assert(!(full[n - 2] == '-' && full[n - 2 + 1] == '-'));
            }
            assert(without_trailing_hyphens(once) == once);
            assert(without_trailing_hyphens(cut) == once);
        }
        assert(false);
    }
}

proof fn lemma_slug_is_ascii_small(title: Seq<char>, low: Seq<char>, out: Seq<char>)
    requires
        low == lowered(title),
        out == bare_slug(title),
        all_looked_up(title),
        all_looked_up(low),
        text::settled('-'),
        forall|k: int|
            0 <= k < low.len() && text::ascii_char(low[k]) ==> text::unicode_alphanumeric(
                #[trigger] low[k],
            ) == (text::ascii_letter(low[k]) || text::ascii_digit(low[k])),
    ensures
        forall|i: int|
            0 <= i < out.len() ==> #[trigger] out[i] == '-' || text::unicode_alphanumeric(out[i]),
        forall|i: int|
            0 <= i < out.len() && text::ascii_char(#[trigger] out[i]) ==> out[i] == '-' || ('a'
                <= out[i] && out[i] <= 'z') || ('0' <= out[i] && out[i] <= '9'),
{
    lemma_bare_slug_shape(title);
    lemma_lowered_is_settled(title);
    let words = title_words(title);
    let full = text::joined(words, seq!['-']);
    lemma_runs_come_from(low);
    lemma_join_comes_from(words, low);
    assert forall|i: int| 0 <= i < out.len() implies #[trigger] out[i] == '-'
        || text::unicode_alphanumeric(out[i]) by {
        assert(out[i] == '-' || word_char(out[i]));
    }
    assert forall|i: int| 0 <= i < out.len() && text::ascii_char(#[trigger] out[i]) implies out[i]
        == '-' || ('a' <= out[i] && out[i] <= 'z') || ('0' <= out[i] && out[i] <= '9') by {
        assert(out[i] == full[i]);
        if out[i] != '-' {
            assert(word_char(out[i]));
            assert(low.contains(full[i]));
            let k = choose|k: int| 0 <= k < low.len() && low[k] == full[i];
            assert(looked_up(low[k]) && text::settled(low[k]));
            assert(text::unicode_lowercase(low[k])[0] == text::ascii_lower(low[k]));
            assert(seq![low[k]][0] == low[k]);
        }
    }
}

/// Every character of the parts is one of `s`.
pub open spec fn parts_from(parts: Seq<Seq<char>>, s: Seq<char>) -> bool {
    forall|i: int, k: int|
        0 <= i < parts.len() && 0 <= k < parts[i].len() ==> s.contains(#[trigger] parts[i][k])
}

proof fn lemma_runs_come_from(s: Seq<char>)
    ensures
        parts_from(text::runs(s, |c: char| word_char(c)), s),
    decreases s.len(),
{
    let keep = |c: char| word_char(c);
    let all = text::runs(s, keep);
    if s.len() == 0 {
    } else if !keep(s.first()) {
        let rest = s.drop_first();
        lemma_runs_come_from(rest);
        assert forall|i: int, k: int|
            0 <= i < all.len() && 0 <= k < all[i].len() implies s.contains(
            #[trigger] all[i][k],
        ) by {
            assert(rest.contains(all[i][k]));
            let j = choose|j: int| 0 <= j < rest.len() && rest[j] == all[i][k];
            assert(s[j + 1] == all[i][k]);
        }
    } else {
        text::lemma_run_length(s, keep);
        let n = text::run_length(s, keep) as int;
        let rest = s.skip(n);
        lemma_runs_come_from(rest);
        let later = text::runs(rest, keep);
        assert forall|i: int, k: int|
            0 <= i < all.len() && 0 <= k < all[i].len() implies s.contains(
            #[trigger] all[i][k],
        ) by {
            if i == 0 {
                assert(all[0] == s.take(n));
                assert(s[k] == all[i][k]);
            } else {
                assert(all[i] == later[i - 1]);
                assert(rest.contains(later[i - 1][k]));
                let j = choose|j: int| 0 <= j < rest.len() && rest[j] == all[i][k];
                assert(s[j + n] == all[i][k]);
            }
        }
    }
}

proof fn lemma_join_comes_from(words: Seq<Seq<char>>, s: Seq<char>)
    requires
        parts_from(words, s),
    ensures
        forall|i: int|
            0 <= i < text::joined(words, seq!['-']).len() ==> #[trigger] text::joined(
                words,
                seq!['-'],
            )[i] == '-' || s.contains(text::joined(words, seq!['-'])[i]),
    decreases words.len(),
{
    if words.len() > 0 {
        let before = words.drop_last();
        let word = words.last();
        let all = text::joined(words, seq!['-']);
        assert(parts_from(before, s)) by {
            assert forall|i: int, k: int|
                0 <= i < before.len() && 0 <= k < before[i].len() implies s.contains(
                #[trigger] before[i][k],
            ) by {
                assert(before[i][k] == words[i][k]);
            }
        }
        lemma_join_comes_from(before, s);
        let head = text::joined(before, seq!['-']);
        assert forall|i: int| 0 <= i < all.len() implies #[trigger] all[i] == '-' || s.contains(
            all[i],
        ) by {
            if before.len() == 0 {
                assert(all[i] == words[words.len() - 1][i]);
            } else if i < head.len() {
                assert(all[i] == head[i]);
            } else if i > head.len() {
                assert(all[i] == words[words.len() - 1][i - head.len() - 1]);
            }
        }
    }
}

} // verus!
