//! Line ends: no line of a tidied text ends in white space, and the text does
//! not end in a newline.

use vstd::prelude::*;
use crate::text;

verus! {

/// `c` is white space that does not end a line.
pub open spec fn blank(c: char) -> bool {
    text::white_space(c) && c != '\n'
}

/// `s` without the blanks at its end.
pub open spec fn without_trailing_blanks(s: Seq<char>) -> Seq<char>
    decreases s.len(),
{
    if s.len() > 0 && blank(s.last()) {
        without_trailing_blanks(s.drop_last())
    } else {
        s
    }
}

/// `s` without the blanks in front of its newlines.
pub open spec fn tidy_lines(s: Seq<char>) -> Seq<char>
    decreases s.len(),
{
    if s.len() == 0 {
        Seq::empty()
    } else if s.last() == '\n' {
        without_trailing_blanks(tidy_lines(s.drop_last())).push('\n')
    } else {
        tidy_lines(s.drop_last()).push(s.last())
    }
}

/// `s` without the white space at the end of its lines and at its own end.
pub open spec fn tidied(s: Seq<char>) -> Seq<char> {
    text::trimmed_end(tidy_lines(s))
}

/// No blank of `s` stands in front of a newline.
pub open spec fn inner_lines_tidy(s: Seq<char>) -> bool {
    forall|i: int| 0 <= i < s.len() - 1 && #[trigger] blank(s[i]) ==> s[i + 1] != '\n'
}

/// No line of `s` ends in white space.
pub open spec fn tidy(s: Seq<char>) -> bool {
    inner_lines_tidy(s) && (s.len() > 0 ==> !blank(s.last()))
}

/// Removes the white space at the end of every line, and at the end of the text.
pub fn tidy_text(s: &str) -> (r: String)
    ensures
        r@ == tidied(s@),
{
    let chars = text::chars_of(s);
    let mut out: Vec<char> = Vec::new();
    assert(s@.take(0) =~= Seq::empty());
    for i in 0..chars.len()
        invariant
            chars@ == s@,
            out@ == tidy_lines(s@.take(i as int)),
    {
        let c = chars[i];
        assert(s@.take(i + 1).drop_last() =~= s@.take(i as int));
        if c == '\n' {
            let mut end: usize = out.len();
            assert(out@.take(end as int) =~= out@);
            while end > 0 && out[end - 1] != '\n' && text::is_whitespace(out[end - 1])
                invariant
                    end <= out@.len(),
                    without_trailing_blanks(out@.take(end as int)) == without_trailing_blanks(out@),
                decreases end,
            {
                assert(out@.take(end as int).drop_last() =~= out@.take(end - 1));
                end -= 1;
            }
            out.truncate(end);
        }
        out.push(c);
    }
    assert(s@.take(s@.len() as int) =~= s@);
    let lines = text::string_of(&out);
    text::trim_end(lines.as_str())
}

// ---------------------------------------------------------------------------
// Laws
// ---------------------------------------------------------------------------

pub proof fn lemma_without_trailing_blanks(s: Seq<char>)
    ensures
        without_trailing_blanks(s).len() <= s.len(),
        without_trailing_blanks(s) == s.take(without_trailing_blanks(s).len() as int),
        without_trailing_blanks(s).len() > 0 ==> !blank(without_trailing_blanks(s).last()),
        s.len() > 0 && !blank(s.first()) ==> without_trailing_blanks(s).len() > 0,
    decreases s.len(),
{
    if s.len() > 0 && blank(s.last()) {
        lemma_without_trailing_blanks(s.drop_last());
        let n = without_trailing_blanks(s).len() as int;
        assert(s.drop_last().take(n) =~= s.take(n));
        if !blank(s.first()) {
            assert(s.len() > 1);
            assert(s.drop_last().first() == s.first());
        }
    } else {
        assert(s.take(s.len() as int) =~= s);
    }
}

pub proof fn lemma_trimmed_end(s: Seq<char>)
    ensures
        text::trimmed_end(s).len() <= s.len(),
        text::trimmed_end(s) == s.take(text::trimmed_end(s).len() as int),
        text::trimmed_end(s).len() > 0 ==> !text::white_space(text::trimmed_end(s).last()),
        s.len() > 0 && !text::white_space(s.first()) ==> text::trimmed_end(s).len() > 0,
    decreases s.len(),
{
    if s.len() > 0 && text::white_space(s.last()) {
        lemma_trimmed_end(s.drop_last());
        let n = text::trimmed_end(s).len() as int;
        assert(s.drop_last().take(n) =~= s.take(n));
        if !text::white_space(s.first()) {
            assert(s.len() > 1);
            assert(s.drop_last().first() == s.first());
        }
    } else {
        assert(s.take(s.len() as int) =~= s);
    }
}

pub proof fn lemma_tidy_lines(s: Seq<char>)
    ensures
        inner_lines_tidy(tidy_lines(s)),
        s.len() > 0 && !blank(s.first()) ==> tidy_lines(s).len() > 0 && tidy_lines(s).first()
            == s.first(),
    decreases s.len(),
{
    if s.len() > 0 {
        let before = tidy_lines(s.drop_last());
        lemma_tidy_lines(s.drop_last());
        lemma_without_trailing_blanks(before);
        let kept = if s.last() == '\n' {
            without_trailing_blanks(before)
        } else {
            before
        };
        let all = kept.push(s.last());
        assert(all == tidy_lines(s));
        assert forall|i: int| 0 <= i < all.len() - 1 && #[trigger] blank(all[i]) implies all[i + 1]
            != '\n' by {
            assert(all[i] == before[i]);
            if i + 1 < kept.len() {
                assert(all[i + 1] == before[i + 1]);
            } else if s.last() == '\n' {
                assert(all[i] == kept.last());
            }
        }
        if s.len() > 1 && !blank(s.first()) {
            assert(s.drop_last().first() == s.first());
        }
    }
}

/// No line of a tidied text ends in white space, and the text itself does not.
/// A text that does not start with white space keeps its first character.
pub proof fn tidied_text_is_tidy(s: Seq<char>)
    ensures
        tidy(tidied(s)),
        tidied(s).len() > 0 ==> !text::white_space(tidied(s).last()),
        s.len() > 0 && !text::white_space(s.first()) ==> tidied(s).len() > 0 && tidied(s).first()
            == s.first(),
{
    let lines = tidy_lines(s);
    lemma_tidy_lines(s);
    lemma_trimmed_end(lines);
    let out = tidied(s);
    assert forall|i: int| 0 <= i < out.len() - 1 && #[trigger] blank(out[i]) implies out[i + 1]
        != '\n' by {
        assert(out[i] == lines[i] && out[i + 1] == lines[i + 1]);
    }
}

/// A text that is tidy and does not end in white space stays as it is.
pub proof fn tidy_text_stays(s: Seq<char>)
    requires
        tidy(s),
        s.len() > 0 ==> s.last() != '\n',
    ensures
        tidied(s) == s,
{
    lemma_tidy_lines_stay(s);
}

pub proof fn lemma_tidy_lines_stay(s: Seq<char>)
    requires
        inner_lines_tidy(s),
    ensures
        tidy_lines(s) == s,
    decreases s.len(),
{
    if s.len() > 0 {
        let before = s.drop_last();
        assert forall|i: int| 0 <= i < before.len() - 1 && #[trigger] blank(
            before[i],
        ) implies before[i + 1] != '\n' by {
            assert(before[i] == s[i] && before[i + 1] == s[i + 1]);
        }
        lemma_tidy_lines_stay(before);
        if s.last() == '\n' && before.len() > 0 {
            assert(before.last() == s[before.len() - 1]);
            assert(!blank(s[before.len() - 1]));
        }
        assert(before.push(s.last()) =~= s);
    } else {
        assert(s =~= Seq::empty());
    }
}

} // verus!
