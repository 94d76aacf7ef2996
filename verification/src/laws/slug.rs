//! Slugs: which characters of a title are in its slug, and how the slug of two
//! titles in a row comes about.

use vstd::prelude::*;
use crate::slug;
use crate::text;

verus! {

/// Each character of `s` in small letters.
pub open spec fn small(s: Seq<char>) -> Seq<char>
    decreases s.len(),
{
    if s.len() == 0 {
        Seq::empty()
    } else {
        text::unicode_lowercase(s[0]) + small(s.skip(1))
    }
}

/// The letters and digits of `s`, in order.
pub open spec fn letters(s: Seq<char>) -> Seq<char>
    decreases s.len(),
{
    if s.len() == 0 {
        Seq::empty()
    } else if s[0] != '-' && text::unicode_alphanumeric(s[0]) {
        seq![s[0]] + letters(s.skip(1))
    } else {
        letters(s.skip(1))
    }
}

/// `s` holds a letter or a digit.
pub open spec fn has_letter(s: Seq<char>) -> bool {
    exists|i: int| 0 <= i < s.len() && #[trigger] s[i] != '-' && text::unicode_alphanumeric(s[i])
}

/// `a` is how `b` starts.
pub open spec fn starts(a: Seq<char>, b: Seq<char>) -> bool {
    a.len() <= b.len() && b.take(a.len() as int) == a
}

proof fn lemma_small_push(s: Seq<char>, c: char)
    ensures
        small(s.push(c)) == small(s) + text::unicode_lowercase(c),
    decreases s.len(),
{
    let all = s.push(c);
    if s.len() == 0 {
        assert(all.skip(1) =~= Seq::empty());
        assert(small(all.skip(1)) =~= Seq::empty());
        assert(small(all) =~= small(s) + text::unicode_lowercase(c));
    } else {
        lemma_small_push(s.skip(1), c);
        assert(all.skip(1) =~= s.skip(1).push(c));
        assert(small(all) =~= small(s) + text::unicode_lowercase(c));
    }
}

proof fn lemma_small_is_lowered(s: Seq<char>)
    ensures
        slug::lowered(s) == small(s),
    decreases s.len(),
{
    if s.len() > 0 {
        lemma_small_is_lowered(s.drop_last());
        lemma_small_push(s.drop_last(), s.last());
        assert(s.drop_last().push(s.last()) =~= s);
    }
}

proof fn lemma_small_join(a: Seq<char>, b: Seq<char>)
    ensures
        small(a + b) == small(a) + small(b),
    decreases b.len(),
{
    if b.len() == 0 {
        assert(a + b =~= a);
        assert(small(a) + small(b) =~= small(a));
    } else {
        lemma_small_join(a, b.drop_last());
        lemma_small_push(a + b.drop_last(), b.last());
        lemma_small_push(b.drop_last(), b.last());
        assert((a + b.drop_last()).push(b.last()) =~= a + b);
        assert(b.drop_last().push(b.last()) =~= b);
        assert(small(a + b) =~= small(a) + small(b));
    }
}

proof fn lemma_letters_join(a: Seq<char>, b: Seq<char>)
    ensures
        letters(a + b) == letters(a) + letters(b),
    decreases a.len(),
{
    if a.len() == 0 {
        assert(a + b =~= b);
        assert(letters(a) + letters(b) =~= letters(b));
    } else {
        lemma_letters_join(a.skip(1), b);
        assert((a + b).skip(1) =~= a.skip(1) + b);
        assert(letters(a + b) =~= letters(a) + letters(b));
    }
}

proof fn lemma_letters_of_word(w: Seq<char>)
    requires
        slug::is_word(w) || w.len() == 0,
    ensures
        letters(w) == w,
    decreases w.len(),
{
    if w.len() > 0 {
        assert(slug::word_char(w[0]));
        let rest = w.skip(1);
        assert forall|i: int| 0 <= i < rest.len() implies slug::word_char(#[trigger] rest[i]) by {
            assert(rest[i] == w[i + 1]);
        }
        lemma_letters_of_word(rest);
        assert(seq![w[0]] + rest =~= w);
    } else {
        assert(w =~= Seq::empty());
    }
}

proof fn lemma_letters_of_runs(s: Seq<char>)
    ensures
        letters(text::joined(text::runs(s, |c: char| slug::word_char(c)), seq!['-'])) == letters(s),
    decreases s.len(),
{
    let keep = |c: char| slug::word_char(c);
    let all = text::runs(s, keep);
    if s.len() == 0 {
        assert(text::joined(all, seq!['-']) =~= Seq::empty());
    } else if !keep(s.first()) {
        lemma_letters_of_runs(s.drop_first());
        assert(s.skip(1) =~= s.drop_first());
    } else {
        text::lemma_run_length(s, keep);
        let n = text::run_length(s, keep) as int;
        let head = s.take(n);
        let rest = s.skip(n);
        lemma_letters_of_runs(rest);
        assert forall|i: int| 0 <= i < head.len() implies slug::word_char(#[trigger] head[i]) by {
            assert(keep(s[i]));
        }
        lemma_letters_of_word(head);
        lemma_letters_join(head, rest);
        assert(head + rest =~= s);
        let later = text::runs(rest, keep);
        if later.len() == 0 {
            assert(all =~= seq![head]);
            assert(seq![head].drop_last().len() == 0);
            assert(text::joined(all, seq!['-']) == head);
            assert(text::joined(later, seq!['-']) =~= Seq::empty());
            assert(letters(rest) =~= Seq::empty());
            assert(letters(head) + letters(rest) =~= letters(head));
        } else {
            text::lemma_join_from_the_front(all, seq!['-']);
            assert(all.drop_first() =~= later);
            let tail = text::joined(later, seq!['-']);
            lemma_letters_join(head + seq!['-'], tail);
            lemma_letters_join(head, seq!['-']);
            assert(seq!['-'].skip(1) =~= Seq::empty());
            assert(letters(seq!['-'].skip(1)) =~= Seq::empty());
            assert(letters(seq!['-']) =~= Seq::empty());
            assert(letters(head) + letters(seq!['-']) =~= letters(head));
        }
    }
}

/// The letters and digits of a slug are those of its title in small letters, in
/// their order: all of them, unless the slug is as long as a slug may be, else
/// the first ones. What is neither a letter nor a digit never comes into a slug,
/// but for the hyphen.
pub proof fn slug_keeps_the_letters(title: Seq<char>)
    requires
        has_letter(small(title)),
    ensures
        forall|i: int|
            0 <= i < slug::slug_of(title).len() ==> #[trigger] slug::slug_of(title)[i] == '-'
                || text::unicode_alphanumeric(slug::slug_of(title)[i]),
        starts(letters(slug::slug_of(title)), letters(small(title))),
        slug::slug_of(title).len() < 59 ==> letters(slug::slug_of(title)) == letters(small(title)),
        slug::slug_of(title).len() <= 60,
{
    lemma_small_is_lowered(title);
    let low = small(title);
    lemma_letters_of_runs(low);
    slug::lemma_bare_slug_shape(title);
    slug::slug_is_well_formed(title);
    let full = text::joined(slug::title_words(title), seq!['-']);
    lemma_has_letters(low);
    assert(letters(full).len() > 0);
    assert(full.len() > 0) by {
        if full.len() == 0 {
            assert(letters(full) =~= Seq::empty());
        }
    }
    assert(slug::title_words(title).len() > 0) by {
        if slug::title_words(title).len() == 0 {
            assert(full =~= Seq::empty());
        }
    }
    let out = slug::slug_of(title);
    let rest = full.skip(out.len() as int);
    assert(out + rest =~= full);
    lemma_letters_join(out, rest);
    assert(letters(full).take(letters(out).len() as int) =~= letters(out));
    assert forall|i: int| 0 <= i < out.len() implies #[trigger] out[i] == '-'
        || text::unicode_alphanumeric(out[i]) by {
        assert(out[i] == '-' || slug::word_char(out[i]));
    }
    if out.len() < 59 {
        slug::lemma_short_slug_is_whole(title);
    }
}

proof fn lemma_has_letters(s: Seq<char>)
    requires
        has_letter(s),
    ensures
        letters(s).len() > 0,
    decreases s.len(),
{
    let i = choose|i: int|
        0 <= i < s.len() && #[trigger] s[i] != '-' && text::unicode_alphanumeric(s[i]);
    if i > 0 {
        assert(s.skip(1)[i - 1] == s[i]);
        lemma_has_letters(s.skip(1));
    }
}

/// A title without a letter or a digit has the slug `untitled`.
pub proof fn title_without_letters_is_untitled(title: Seq<char>)
    requires
        !has_letter(small(title)),
    ensures
        slug::slug_of(title) == "untitled"@,
{
    lemma_small_is_lowered(title);
    let low = small(title);
    lemma_no_runs(low);
    slug::slug_is_well_formed(title);
}

proof fn lemma_no_runs(s: Seq<char>)
    requires
        !has_letter(s),
    ensures
        text::runs(s, |c: char| slug::word_char(c)).len() == 0,
    decreases s.len(),
{
    if s.len() > 0 {
        let rest = s.drop_first();
        assert(s.first() == s[0]);
        assert(!has_letter(rest)) by {
            if has_letter(rest) {
                let i = choose|i: int|
                    0 <= i < rest.len() && #[trigger] rest[i] != '-' && text::unicode_alphanumeric(
                        rest[i],
                    );
                assert(s[i + 1] == rest[i]);
            }
        }
        lemma_no_runs(rest);
    }
}

/// The slug of two titles with a separator between them is the two slugs with a
/// hyphen between them, where it is short enough; a title without a letter or a
/// digit adds nothing.
pub proof fn slug_of_two_titles(a: Seq<char>, c: char, b: Seq<char>)
    requires
        !has_letter(text::unicode_lowercase(c)),
        text::unicode_lowercase(c).len() > 0,
    ensures
        has_letter(small(a)) && has_letter(small(b)) && slug::slug_of(a).len() + 1 + slug::slug_of(
            b,
        ).len() < 59 ==> slug::slug_of(a.push(c) + b) == slug::slug_of(a) + seq!['-']
            + slug::slug_of(b),
        !has_letter(small(a)) ==> slug::slug_of(a.push(c) + b) == slug::slug_of(b),
        !has_letter(small(b)) ==> slug::slug_of(a.push(c) + b) == slug::slug_of(a),
{
    let keep = |d: char| slug::word_char(d);
    let all = a.push(c) + b;
    lemma_small_is_lowered(a);
    lemma_small_is_lowered(b);
    lemma_small_is_lowered(all);
    lemma_small_push(a, c);
    lemma_small_join(a.push(c), b);
    let gap = text::unicode_lowercase(c);
    assert forall|i: int| 0 <= i < gap.len() implies !keep(#[trigger] gap[i]) by {}
    text::lemma_runs_split(small(a), gap, small(b), keep);
    let wa = slug::title_words(a);
    let wb = slug::title_words(b);
    assert(slug::title_words(all) == wa + wb);
    if !has_letter(small(a)) {
        lemma_no_runs(small(a));
        assert(wa + wb =~= wb);
    }
    if !has_letter(small(b)) {
        lemma_no_runs(small(b));
        assert(wa + wb =~= wa);
    }
    if has_letter(small(a)) && has_letter(small(b)) && slug::slug_of(a).len() + 1 + slug::slug_of(
        b,
    ).len() < 59 {
        slug_keeps_the_letters(a);
        slug_keeps_the_letters(b);
        lemma_words_of_letters(a);
        lemma_words_of_letters(b);
        slug::lemma_short_slug_is_whole(a);
        slug::lemma_short_slug_is_whole(b);
        lemma_has_letters(small(a));
        lemma_has_letters(small(b));
        slug::slug_is_well_formed(a);
        slug::slug_is_well_formed(b);
        text::lemma_joined_concat(wa, wb, seq!['-']);
        let full = text::joined(wa, seq!['-']) + seq!['-'] + text::joined(wb, seq!['-']);
        assert(full == slug::slug_of(a) + seq!['-'] + slug::slug_of(b));
        assert(full.last() == slug::slug_of(b).last());
        assert(slug::bare_slug(all) == full);
        assert(full.len() > 0);
    }
}

proof fn lemma_words_of_letters(title: Seq<char>)
    requires
        has_letter(small(title)),
    ensures
        slug::title_words(title).len() > 0,
{
    lemma_small_is_lowered(title);
    lemma_letters_of_runs(small(title));
    lemma_has_letters(small(title));
    if slug::title_words(title).len() == 0 {
        assert(text::joined(slug::title_words(title), seq!['-']) =~= Seq::empty());
    }
}

} // verus!
