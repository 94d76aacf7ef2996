//! What tidying keeps of a text: everything but white space, and every part that
//! starts and ends in something else.

use vstd::prelude::*;
use crate::render::tidy;
use crate::text;

verus! {

/// `s` without its white space.
pub open spec fn ink(s: Seq<char>) -> Seq<char>
    decreases s.len(),
{
    if s.len() == 0 {
        Seq::empty()
    } else if text::white_space(s.last()) {
        ink(s.drop_last())
    } else {
        ink(s.drop_last()).push(s.last())
    }
}

/// The ink of two texts is that of the first and then that of the second.
pub proof fn lemma_ink_concat(a: Seq<char>, b: Seq<char>)
    ensures
        ink(a + b) == ink(a) + ink(b),
    decreases b.len(),
{
    if b.len() == 0 {
        assert(a + b =~= a);
        assert(ink(a) + ink(b) =~= ink(a));
    } else {
        assert((a + b).drop_last() =~= a + b.drop_last());
        assert((a + b).last() == b.last());
        lemma_ink_concat(a, b.drop_last());
        assert(ink(a + b) =~= ink(a) + ink(b));
    }
}

proof fn lemma_ink_without_trailing_blanks(s: Seq<char>)
    ensures
        ink(tidy::without_trailing_blanks(s)) == ink(s),
    decreases s.len(),
{
    if s.len() > 0 && tidy::blank(s.last()) {
        lemma_ink_without_trailing_blanks(s.drop_last());
    }
}

proof fn lemma_ink_trimmed_end(s: Seq<char>)
    ensures
        ink(text::trimmed_end(s)) == ink(s),
    decreases s.len(),
{
    if s.len() > 0 && text::white_space(s.last()) {
        lemma_ink_trimmed_end(s.drop_last());
    }
}

proof fn lemma_ink_tidy_lines(s: Seq<char>)
    ensures
        ink(tidy::tidy_lines(s)) == ink(s),
    decreases s.len(),
{
    if s.len() > 0 {
        let before = tidy::tidy_lines(s.drop_last());
        lemma_ink_tidy_lines(s.drop_last());
        if s.last() == '\n' {
            lemma_ink_without_trailing_blanks(before);
            let kept = tidy::without_trailing_blanks(before);
            assert(kept.push('\n').drop_last() =~= kept);
        } else {
            assert(before.push(s.last()).drop_last() =~= before);
        }
    }
}

/// Tidying a text takes nothing away but white space.
pub proof fn tidying_takes_white_space_alone(s: Seq<char>)
    ensures
        ink(tidy::tidied(s)) == ink(s),
        ink(text::trimmed_end(s)) == ink(s),
{
    lemma_ink_tidy_lines(s);
    lemma_ink_trimmed_end(tidy::tidy_lines(s));
    lemma_ink_trimmed_end(s);
}

proof fn lemma_without_trailing_blanks_split(x: Seq<char>, y: Seq<char>)
    requires
        y.len() > 0,
        !tidy::blank(y.first()),
    ensures
        tidy::without_trailing_blanks(x + y) == x + tidy::without_trailing_blanks(y),
    decreases y.len(),
{
    let all = x + y;
    assert(all.last() == y.last());
    if tidy::blank(y.last()) {
        assert(y.len() > 1);
        assert(y.drop_last().first() == y.first());
        assert(all.drop_last() =~= x + y.drop_last());
        lemma_without_trailing_blanks_split(x, y.drop_last());
    }
}

/// A text that starts in something else than white space is tidied on its own,
/// whatever stands in front of it.
pub proof fn lemma_tidy_lines_split(a: Seq<char>, b: Seq<char>)
    requires
        b.len() > 0,
        !text::white_space(b.first()),
    ensures
        tidy::tidy_lines(a + b) == tidy::tidy_lines(a) + tidy::tidy_lines(b),
    decreases b.len(),
{
    let all = a + b;
    let rest = b.drop_last();
    assert(all.drop_last() =~= a + rest);
    assert(all.last() == b.last());
    if b.len() == 1 {
        assert(a + rest =~= a);
        assert(tidy::tidy_lines(rest) =~= Seq::empty());
        assert(b.last() != '\n');
        assert(tidy::tidy_lines(all) =~= tidy::tidy_lines(a) + tidy::tidy_lines(b));
    } else {
        assert(rest.first() == b.first());
        lemma_tidy_lines_split(a, rest);
        let x = tidy::tidy_lines(a);
        let y = tidy::tidy_lines(rest);
        if b.last() == '\n' {
            tidy::lemma_tidy_lines(rest);
            lemma_without_trailing_blanks_split(x, y);
        }
        assert(tidy::tidy_lines(all) =~= x + tidy::tidy_lines(b));
    }
}

/// Newlines behind a text take the blanks at its end.
pub proof fn lemma_tidy_lines_then_newlines(x: Seq<char>, gap: Seq<char>)
    requires
        gap.len() > 0,
        forall|i: int| 0 <= i < gap.len() ==> gap[i] == '\n',
    ensures
        tidy::tidy_lines(x + gap) == tidy::without_trailing_blanks(tidy::tidy_lines(x)) + gap,
    decreases gap.len(),
{
    let all = x + gap;
    let rest = gap.drop_last();
    assert(all.drop_last() =~= x + rest);
    assert(all.last() == '\n');
    let kept = tidy::without_trailing_blanks(tidy::tidy_lines(x));
    if rest.len() == 0 {
        assert(x + rest =~= x);
        assert(kept.push('\n') =~= kept + gap);
    } else {
        lemma_tidy_lines_then_newlines(x, rest);
        assert((kept + rest).last() == '\n');
        assert(tidy::without_trailing_blanks(kept + rest) == kept + rest);
        assert((kept + rest).push('\n') =~= kept + gap);
    }
}

/// What ends in something else than white space stays where the white space at the
/// end of the text goes.
pub proof fn lemma_stands_before_white_space(s: Seq<char>, needle: Seq<char>, at: int)
    requires
        text::stands_at(s, needle, at),
        needle.len() > 0,
        !text::white_space(needle.last()),
    ensures
        text::stands_at(text::trimmed_end(s), needle, at),
        text::stands_at(tidy::without_trailing_blanks(s), needle, at),
    decreases s.len(),
{
    if s.len() > 0 && text::white_space(s.last()) {
        assert(s.subrange(at, at + needle.len()).last() == s[at + needle.len() - 1]);
        assert(at + needle.len() < s.len());
        let rest = s.drop_last();
        assert(rest.subrange(at, at + needle.len()) =~= s.subrange(at, at + needle.len()));
        assert(text::stands_at(rest, needle, at));
        lemma_stands_before_white_space(rest, needle, at);
        if !tidy::blank(s.last()) {
            assert(tidy::without_trailing_blanks(s) == s);
        }
    }
}

proof fn lemma_occurs_before_white_space(s: Seq<char>, needle: Seq<char>)
    requires
        text::occurs(s, needle),
        needle.len() > 0,
        !text::white_space(needle.last()),
    ensures
        text::occurs(text::trimmed_end(s), needle),
{
    let at = choose|at: int| text::stands_at(s, needle, at);
    lemma_stands_before_white_space(s, needle, at);
}

/// A tidied text is how its tidied lines start.
pub proof fn lemma_tidied_is_a_start(s: Seq<char>)
    requires
        s.len() > 0,
        !text::white_space(s.first()),
    ensures
        tidy::tidied(s).len() > 0,
        tidy::tidied(s).first() == s.first(),
        !text::white_space(tidy::tidied(s).last()),
        tidy::tidied(s).len() <= tidy::tidy_lines(s).len(),
        tidy::tidy_lines(s).take(tidy::tidied(s).len() as int) == tidy::tidied(s),
        !text::white_space(s.last()) ==> tidy::tidied(s) == tidy::tidy_lines(s),
{
    tidy::tidied_text_is_tidy(s);
    tidy::lemma_trimmed_end(tidy::tidy_lines(s));
    if !text::white_space(s.last()) {
        assert(tidy::tidy_lines(s).last() == s.last());
    }
}

// ---------------------------------------------------------------------------
// Joined parts
// ---------------------------------------------------------------------------

/// Every part of a joined text occurs in it, and every one but the first right
/// behind the separator.
pub proof fn lemma_joined_holds(parts: Seq<Seq<char>>, sep: Seq<char>, i: int)
    requires
        0 <= i < parts.len(),
    ensures
        text::occurs(text::joined(parts, sep), parts[i]),
        i > 0 ==> text::occurs(text::joined(parts, sep), sep + parts[i]),
    decreases parts.len(),
{
    let before = parts.drop_last();
    let last = parts.last();
    if before.len() == 0 {
        assert(last.subrange(0, last.len() as int) =~= last);
        assert(text::stands_at(last, last, 0));
    } else {
        let head = text::joined(before, sep);
        let all = head + sep + last;
        if i == parts.len() - 1 {
            let tail = sep + last;
            let p = head.len() as int;
            assert(all.subrange(p, p + tail.len()) =~= tail);
            assert(text::stands_at(all, tail, p));
            let q = (head + sep).len() as int;
            assert(all.subrange(q, q + last.len()) =~= last);
            assert(text::stands_at(all, last, q));
        } else {
            assert(before[i] == parts[i]);
            lemma_joined_holds(before, sep, i);
            text::lemma_occurs_in_front(head, sep, parts[i]);
            text::lemma_occurs_in_front(head + sep, last, parts[i]);
            if i > 0 {
                text::lemma_occurs_in_front(head, sep, sep + parts[i]);
                text::lemma_occurs_in_front(head + sep, last, sep + parts[i]);
            }
        }
    }
}

/// The ink of joined parts is that of the parts, where the separator has none.
pub proof fn lemma_ink_joined(parts: Seq<Seq<char>>, sep: Seq<char>, last: Seq<char>)
    requires
        ink(sep).len() == 0,
    ensures
        ink(text::joined(parts.push(last), sep)) == ink(text::joined(parts, sep)) + ink(last),
{
    let all = parts.push(last);
    assert(all.drop_last() =~= parts);
    assert(all.last() == last);
    if parts.len() == 0 {
        assert(text::joined(parts, sep) =~= Seq::<char>::empty());
        assert(ink(text::joined(parts, sep)) =~= Seq::<char>::empty());
        assert(ink(text::joined(all, sep)) =~= ink(text::joined(parts, sep)) + ink(last));
    } else {
        let head = text::joined(parts, sep);
        lemma_ink_concat(head + sep, last);
        lemma_ink_concat(head, sep);
        assert(ink(head) + ink(sep) =~= ink(head));
    }
}

/// The parts of a section start in something else than white space, and the gap
/// between them is made of newlines.
pub open spec fn section_parts(heading: Seq<char>, parts: Seq<Seq<char>>, gap: Seq<char>) -> bool {
    &&& parts.len() > 0
    &&& gap.len() > 0
    &&& forall|i: int| 0 <= i < gap.len() ==> gap[i] == '\n'
    &&& forall|i: int|
        0 <= i < parts.len() ==> (#[trigger] parts[i]).len() > 0 && !text::white_space(
            parts[i].first(),
        )
    &&& tidy::inner_lines_tidy(heading)
}

proof fn lemma_section_so_far(heading: Seq<char>, parts: Seq<Seq<char>>, gap: Seq<char>, i: int)
    requires
        section_parts(heading, parts, gap),
        0 <= i < parts.len(),
    ensures
        text::occurs(
            tidy::tidy_lines(heading + text::joined(parts, gap)),
            tidy::tidied(parts[i]),
        ),
        i == 0 ==> text::stands_at(
            tidy::tidy_lines(heading + text::joined(parts, gap)),
            heading + tidy::tidied(parts[i]),
            0,
        ),
        i > 0 && !text::white_space(parts[i - 1].last()) ==> text::occurs(
            tidy::tidy_lines(heading + text::joined(parts, gap)),
            tidy::tidied(parts[i - 1]) + gap + tidy::tidied(parts[i]),
        ),
    decreases parts.len(),
{
    let before = parts.drop_last();
    let last = parts.last();
    assert(last == parts[parts.len() - 1]);
    let raw = heading + text::joined(parts, gap);
    let whole = tidy::tidy_lines(raw);
    let shown = tidy::tidied(parts[i]);
    lemma_tidied_is_a_start(last);
    lemma_tidied_is_a_start(parts[i]);
    let tail = tidy::tidy_lines(last);
    if before.len() == 0 {
        assert(i == 0);
        lemma_tidy_lines_split(heading, last);
        tidy::lemma_tidy_lines_stay(heading);
        assert(whole == heading + tail);
        let n = heading.len() as int;
        assert(whole.subrange(n, n + shown.len()) =~= tail.take(shown.len() as int));
        assert(text::stands_at(whole, shown, n));
        let both = heading + shown;
        assert(whole.subrange(0, both.len() as int) =~= both) by {
            assert forall|k: int| 0 <= k < both.len() implies whole[k] == both[k] by {
                if k >= n {
                    assert(tail.take(shown.len() as int)[k - n] == shown[k - n]);
                }
            }
        }
        assert(text::stands_at(whole, both, 0));
    } else {
        let head = heading + text::joined(before, gap);
        assert(raw =~= head + gap + last);
        lemma_tidy_lines_split(head + gap, last);
        lemma_tidy_lines_then_newlines(head, gap);
        let upto = tidy::tidy_lines(head);
        let kept = tidy::without_trailing_blanks(upto);
        assert(whole == kept + gap + tail);
        assert forall|k: int| 0 <= k < before.len() implies (#[trigger] before[k]).len() > 0
            && !text::white_space(before[k].first()) by {
            assert(before[k] == parts[k]);
        }
        if i < before.len() {
            assert(before[i] == parts[i]);
            lemma_section_so_far(heading, before, gap, i);
            let at = choose|at: int| text::stands_at(upto, shown, at);
            lemma_section_keeps_at(upto, gap, tail, shown, at);
            if i == 0 {
                lemma_section_keeps_at(upto, gap, tail, heading + shown, 0);
            }
            if i > 0 && !text::white_space(parts[i - 1].last()) {
                assert(before[i - 1] == parts[i - 1]);
                let both = tidy::tidied(parts[i - 1]) + gap + shown;
                let at = choose|at: int| text::stands_at(upto, both, at);
                lemma_section_keeps_at(upto, gap, tail, both, at);
            }
        } else {
            let n = (kept + gap).len() as int;
            assert(whole.subrange(n, n + shown.len()) =~= tail.take(shown.len() as int));
            assert(text::stands_at(whole, shown, n));
            if !text::white_space(parts[i - 1].last()) {
                assert(before.last() == parts[i - 1]);
                assert(before.push(last) =~= parts);
                lemma_section_pair(heading, before, gap, last);
            }
        }
    }
}

proof fn lemma_section_keeps_at(
    upto: Seq<char>,
    gap: Seq<char>,
    tail: Seq<char>,
    needle: Seq<char>,
    at: int,
)
    requires
        text::stands_at(upto, needle, at),
        needle.len() > 0,
        !text::white_space(needle.last()),
    ensures
        text::stands_at(tidy::without_trailing_blanks(upto) + gap + tail, needle, at),
{
    let kept = tidy::without_trailing_blanks(upto);
    lemma_stands_before_white_space(upto, needle, at);
    let all = kept + gap + tail;
    assert(all.subrange(at, at + needle.len()) =~= kept.subrange(at, at + needle.len()));
}

proof fn lemma_section_pair(
    heading: Seq<char>,
    before: Seq<Seq<char>>,
    gap: Seq<char>,
    last: Seq<char>,
)
    requires
        section_parts(heading, before, gap),
        last.len() > 0,
        !text::white_space(last.first()),
        !text::white_space(before.last().last()),
    ensures
        text::occurs(
            tidy::tidy_lines(heading + text::joined(before.push(last), gap)),
            tidy::tidied(before.last()) + gap + tidy::tidied(last),
        ),
{
    let parts = before.push(last);
    assert(parts.drop_last() =~= before);
    assert(parts.last() == last);
    let prior = before.last();
    assert(prior == before[before.len() - 1]);
    let head = heading + text::joined(before, gap);
    assert(heading + text::joined(parts, gap) =~= head + gap + last);
    lemma_tidy_lines_split(head + gap, last);
    lemma_tidy_lines_then_newlines(head, gap);
    let upto = tidy::tidy_lines(head);
    let tail = tidy::tidy_lines(last);
    lemma_tidied_is_a_start(last);
    lemma_tidied_is_a_start(prior);
    let front = if before.len() == 1 {
        heading
    } else {
        heading + text::joined(before.drop_last(), gap) + gap
    };
    assert(head =~= front + prior);
    lemma_tidy_lines_split(front, prior);
    assert(upto == tidy::tidy_lines(front) + tidy::tidied(prior));
    assert(upto.last() == tidy::tidied(prior).last());
    assert(tidy::without_trailing_blanks(upto) == upto);
    let whole = upto + gap + tail;
    let shown = tidy::tidied(last);
    let both = tidy::tidied(prior) + gap + shown;
    let p = tidy::tidy_lines(front).len() as int;
    assert(whole.subrange(p, p + both.len()) =~= both) by {
        assert forall|k: int| 0 <= k < both.len() implies whole[p + k] == both[k] by {
            let m = (tidy::tidied(prior) + gap).len() as int;
            if k >= m {
                assert(tail.take(shown.len() as int)[k - m] == shown[k - m]);
            }
        }
    }
    assert(text::stands_at(whole, both, p));
}

/// A tidied section holds each of its parts, tidied: the first right behind the
/// heading, and each other one a gap behind the part before it, where that part
/// does not end in white space.
pub proof fn lemma_section_holds(heading: Seq<char>, parts: Seq<Seq<char>>, gap: Seq<char>, i: int)
    requires
        section_parts(heading, parts, gap),
        0 <= i < parts.len(),
    ensures
        text::occurs(
            tidy::tidied(heading + text::joined(parts, gap)),
            tidy::tidied(parts[i]),
        ),
        i == 0 ==> text::stands_at(
            tidy::tidied(heading + text::joined(parts, gap)),
            heading + tidy::tidied(parts[i]),
            0,
        ),
        i > 0 && !text::white_space(parts[i - 1].last()) ==> text::occurs(
            tidy::tidied(heading + text::joined(parts, gap)),
            tidy::tidied(parts[i - 1]) + gap + tidy::tidied(parts[i]),
        ),
{
    let lines = tidy::tidy_lines(heading + text::joined(parts, gap));
    lemma_section_so_far(heading, parts, gap, i);
    lemma_tidied_is_a_start(parts[i]);
    let shown = tidy::tidied(parts[i]);
    lemma_occurs_before_white_space(lines, shown);
    if i == 0 {
        assert((heading + shown).last() == shown.last());
        lemma_stands_before_white_space(lines, heading + shown, 0);
    }
    if i > 0 && !text::white_space(parts[i - 1].last()) {
        let both = tidy::tidied(parts[i - 1]) + gap + shown;
        assert(both.last() == shown.last());
        lemma_occurs_before_white_space(lines, both);
    }
}

} // verus!
