//! Text: words, white space and numerals.

use vstd::prelude::*;
use crate::text;

verus! {

/// Every character of `s` is white space.
pub open spec fn all_white(s: Seq<char>) -> bool {
    forall|i: int| 0 <= i < s.len() ==> text::white_space(#[trigger] s[i])
}

/// No character of `s` is white space.
pub open spec fn no_white(s: Seq<char>) -> bool {
    forall|i: int| 0 <= i < s.len() ==> !text::white_space(#[trigger] s[i])
}

/// The words of two texts with white space between them are the words of the one
/// and then those of the other. A text without white space is one word.
pub proof fn words_are_parted_by_white_space(a: Seq<char>, gap: Seq<char>, b: Seq<char>)
    requires
        gap.len() > 0,
        all_white(gap),
    ensures
        text::words(a + gap + b) == text::words(a) + text::words(b),
        no_white(a) && a.len() > 0 ==> text::words(a) == seq![a],
        text::words(Seq::empty()) == Seq::<Seq<char>>::empty(),
{
    let keep = |c: char| !text::white_space(c);
    text::lemma_runs_split(a, gap, b, keep);
    if no_white(a) && a.len() > 0 {
        text::lemma_run_length(a, keep);
        let n = text::run_length(a, keep) as int;
        if n < a.len() {
            assert(!keep(a[n]));
            assert(!text::white_space(a[n]));
        }
        assert(keep(a[0]));
        assert(a.take(n) =~= a);
        assert(a.skip(n) =~= Seq::empty());
        assert(text::runs(a.skip(n), keep) =~= Seq::empty());
        assert(text::runs(a, keep) =~= seq![a]);
    }
}

proof fn lemma_end(s: Seq<char>) -> (b: Seq<char>)
    ensures
        s == text::trimmed_end(s) + b,
        all_white(b),
        text::trimmed_end(s).len() > 0 ==> !text::white_space(text::trimmed_end(s).last()),
    decreases s.len(),
{
    if s.len() > 0 && text::white_space(s.last()) {
        let less = lemma_end(s.drop_last());
        let b = less.push(s.last());
        let kept = text::trimmed_end(s);
        assert(kept == text::trimmed_end(s.drop_last()));
        assert(s.drop_last().push(s.last()) =~= s);
        assert((kept + less).push(s.last()) =~= kept + b);
        b
    } else {
        assert(s + Seq::empty() =~= s);
        Seq::empty()
    }
}

proof fn lemma_start(s: Seq<char>) -> (a: Seq<char>)
    ensures
        s == a + text::trimmed_start(s),
        all_white(a),
        text::trimmed_start(s).len() > 0 ==> !text::white_space(text::trimmed_start(s).first())
            && text::trimmed_start(s).last() == s.last(),
    decreases s.len(),
{
    if s.len() > 0 && text::white_space(s.first()) {
        let less = lemma_start(s.drop_first());
        let a = seq![s.first()] + less;
        let kept = text::trimmed_start(s);
        assert(kept == text::trimmed_start(s.drop_first()));
        assert(seq![s.first()] + s.drop_first() =~= s);
        assert(seq![s.first()] + (less + kept) =~= a + kept);
        assert forall|i: int| 0 <= i < a.len() implies text::white_space(#[trigger] a[i]) by {
            if i > 0 {
                assert(a[i] == less[i - 1]);
            }
        }
        a
    } else {
        assert(Seq::<char>::empty() + s =~= s);
        Seq::empty()
    }
}

/// Trimming takes white space away at both ends and nothing else, and leaves none
/// there.
pub proof fn trimming_takes_white_space_alone(s: Seq<char>) -> (ends: (Seq<char>, Seq<char>))
    ensures
        s == ends.0 + text::trimmed(s) + ends.1,
        all_white(ends.0),
        all_white(ends.1),
        text::trimmed(s).len() > 0 ==> !text::white_space(text::trimmed(s).first())
            && !text::white_space(text::trimmed(s).last()),
{
    let b = lemma_end(s);
    let a = lemma_start(text::trimmed_end(s));
    assert(s =~= a + text::trimmed(s) + b);
    (a, b)
}

/// The number that a numeral stands for.
pub open spec fn number(s: Seq<char>) -> int
    decreases s.len(),
{
    if s.len() == 0 {
        0
    } else {
        10 * number(s.drop_last()) + (s.last() as int - '0' as int)
    }
}

/// A numeral stands for its number, consists of digits, and starts with a zero
/// only where it is that zero.
pub proof fn numeral_stands_for_its_number(n: nat)
    ensures
        number(text::numeral(n)) == n,
        text::numeral(n).len() > 0,
        forall|i: int|
            0 <= i < text::numeral(n).len() ==> text::ascii_digit(#[trigger] text::numeral(n)[i]),
        text::numeral(n)[0] == '0' ==> n == 0,
    decreases n,
{
    let s = text::numeral(n);
    if n >= 10 {
        numeral_stands_for_its_number(n / 10);
        let before = text::numeral(n / 10);
        assert(s.drop_last() =~= before);
        assert forall|i: int| 0 <= i < s.len() implies text::ascii_digit(#[trigger] s[i]) by {
            if i < before.len() {
                assert(s[i] == before[i]);
            }
        }
        assert(s[0] == before[0]);
    } else {
        assert(s.drop_last() =~= Seq::empty());
        assert(number(s.drop_last()) == 0);
    }
}

/// A signed numeral is the numeral of its size, behind a minus sign where the
/// number is negative.
pub proof fn signed_numeral_stands_for_its_number(n: int)
    ensures
        n >= 0 ==> number(text::signed_numeral(n)) == n,
        n < 0 ==> text::signed_numeral(n)[0] == '-' && number(text::signed_numeral(n).skip(1))
            == -n,
{
    if n < 0 {
        numeral_stands_for_its_number((-n) as nat);
        assert(text::signed_numeral(n).skip(1) =~= text::numeral((-n) as nat));
    } else {
        numeral_stands_for_its_number(n as nat);
    }
}

/// A padded numeral has its width, consists of digits, and stands for its number,
/// where the number has that many digits at most.
pub proof fn padded_numeral_stands_for_its_number(n: nat, width: nat)
    ensures
        text::padded(n, width).len() == width,
        forall|i: int|
            0 <= i < width ==> text::ascii_digit(#[trigger] text::padded(n, width)[i]),
        width == 2 && n <= 99 ==> number(text::padded(n, width)) == n,
        width == 4 && n <= 9999 ==> number(text::padded(n, width)) == n,
        width == 1 && n <= 9 ==> number(text::padded(n, width)) == n,
        width == 3 && n <= 999 ==> number(text::padded(n, width)) == n,
    decreases width,
{
    if width > 0 {
        padded_numeral_stands_for_its_number(n / 10, (width - 1) as nat);
        let s = text::padded(n, width);
        let before = text::padded(n / 10, (width - 1) as nat);
        assert(s.drop_last() =~= before);
        assert forall|i: int| 0 <= i < width implies text::ascii_digit(#[trigger] s[i]) by {
            if i < before.len() {
                assert(s[i] == before[i]);
            }
        }
        if width == 1 {
            assert(number(before) == 0);
        }
    }
}

/// A snippet is the text, or its first characters and a mark: never more than
/// that many and one.
pub proof fn snippet_is_how_a_text_starts(s: Seq<char>, max: nat)
    ensures
        s.len() <= max ==> text::snipped(s, max) == s,
        s.len() > max ==> text::snipped(s, max).len() == max + 1 && text::snipped(s, max).last()
            == '\u{2026}' && (forall|i: int|
            0 <= i < max ==> #[trigger] text::snipped(s, max)[i] == s[i]),
{
}

/// The segments of a text are what stands between its slashes: put together with slashes
/// they are the text again, and none of them holds a slash.
pub proof fn segments_are_parted_by_slashes(s: Seq<char>)
    ensures
        text::segments(s).len() > 0,
        text::joined(text::segments(s), seq!['/']) == s,
        forall|i: int|
            0 <= i < text::segments(s).len() ==> !(#[trigger] text::segments(s)[i]).contains('/'),
    decreases s.len(),
{
    let all = text::segments(s);
    if s.len() == 0 {
        assert(all.drop_last().len() == 0);
        assert(text::joined(all, seq!['/']) =~= s);
    } else {
        let rest = s.drop_last();
        let before = text::segments(rest);
        segments_are_parted_by_slashes(rest);
        if s.last() == '/' {
            assert(all.drop_last() =~= before);
            assert(text::joined(all, seq!['/']) =~= s);
        } else {
            let last = before.last();
            assert(all.drop_last() =~= before.drop_last());
            assert(before[before.len() - 1] == last);
            assert(text::joined(all, seq!['/']) =~= text::joined(before, seq!['/']).push(s.last()));
            assert(s =~= rest.push(s.last()));
            assert forall|i: int| 0 <= i < all.len() implies !(#[trigger] all[i]).contains('/') by {
                if i < before.len() - 1 {
                    assert(all[i] == before[i]);
                } else {
                    assert(all[i] == last.push(s.last()));
                    if all[i].contains('/') {
                        let k = choose|k: int| 0 <= k < all[i].len() && all[i][k] == '/';
                        assert(k < last.len());
                        assert(last[k] == '/');
                    }
                }
            }
        }
    }
}

/// Lowering a text keeps its length, makes every ASCII capital small, and leaves every
/// other character alone.
pub proof fn lowering_changes_capitals_alone(s: Seq<char>)
    ensures
        text::ascii_lowercase(s).len() == s.len(),
        forall|i: int|
            0 <= i < s.len() ==> {
                let c = #[trigger] text::ascii_lowercase(s)[i];
                if 'A' <= s[i] && s[i] <= 'Z' {
                    c as int == s[i] as int - 'A' as int + 'a' as int
                } else {
                    c == s[i]
                }
            },
{
}

} // verus!
