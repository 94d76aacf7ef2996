//! Text as sequences of characters: whitespace, trimming, tokens, joins,
//! decimal numerals, and the Unicode tables that the standard library carries.

use vstd::prelude::*;

verus! {

// ---------------------------------------------------------------------------
// The standard library
// ---------------------------------------------------------------------------

/// `String::push`: appends one character.
pub assume_specification[ String::push ](s: &mut String, ch: char)
    ensures
        final(s)@ == old(s)@.push(ch),
;

/// `String::push_str`: appends a string slice.
pub assume_specification[ String::push_str ](s: &mut String, string: &str)
    ensures
        final(s)@ == old(s)@ + string@,
;

/// Whether the Unicode tables of the standard library count `c` as a letter or
/// a digit: what `char::is_alphanumeric` answers.
pub uninterp spec fn unicode_alphanumeric(c: char) -> bool;

/// The lowercase mapping of `c`: the characters that `char::to_lowercase` yields.
pub uninterp spec fn unicode_lowercase(c: char) -> Seq<char>;

/// The lowercase form of a text: what `str::to_lowercase` returns.
pub uninterp spec fn unicode_lowercase_text(s: Seq<char>) -> Seq<char>;

/// The uppercase form of a text: what `str::to_uppercase` returns.
pub uninterp spec fn unicode_uppercase_text(s: Seq<char>) -> Seq<char>;

/// `char::is_alphanumeric`. Among the ASCII characters it holds of the letters
/// and the digits alone.
#[verifier::external_body]
pub(crate) fn is_alphanumeric(c: char) -> (r: bool)
    ensures
        r == unicode_alphanumeric(c),
        ascii_char(c) ==> r == (ascii_letter(c) || ascii_digit(c)),
{
    c.is_alphanumeric()
}

/// `char::to_lowercase`, collected. The mapping has at least one character; an
/// ASCII character maps to its ASCII lowercase form. The mapping is that of the
/// Unicode Character Database, in which the lowercase form of a lowercase form is
/// that form again.
#[verifier::external_body]
pub(crate) fn lowercase_of(c: char) -> (r: Vec<char>)
    ensures
        r@ == unicode_lowercase(c),
        r@.len() >= 1,
        ascii_char(c) ==> r@ == seq![ascii_lower(c)],
        forall|i: int| 0 <= i < r@.len() ==> settled(#[trigger] r@[i]),
{
    c.to_lowercase().collect()
}

/// `str::to_lowercase`. On an ASCII text it is the ASCII lowercase form.
#[verifier::external_body]
pub(crate) fn lowercase_text(s: &str) -> (r: String)
    ensures
        r@ == unicode_lowercase_text(s@),
        ascii_text(s@) ==> r@ == ascii_lowercase(s@),
{
    s.to_lowercase()
}

/// `str::to_uppercase`. On an ASCII text it is the ASCII uppercase form.
#[verifier::external_body]
pub(crate) fn uppercase_text(s: &str) -> (r: String)
    ensures
        r@ == unicode_uppercase_text(s@),
        ascii_text(s@) ==> r@ == ascii_uppercase(s@),
{
    s.to_uppercase()
}

// ---------------------------------------------------------------------------
// Character classes
// ---------------------------------------------------------------------------

/// `c` is an ASCII character.
pub open spec fn ascii_char(c: char) -> bool {
    (c as int) < 128
}

/// Every character of `s` is ASCII.
pub open spec fn ascii_text(s: Seq<char>) -> bool {
    forall|i: int| 0 <= i < s.len() ==> ascii_char(#[trigger] s[i])
}

/// `c` is an ASCII letter.
pub open spec fn ascii_letter(c: char) -> bool {
    ('a' <= c && c <= 'z') || ('A' <= c && c <= 'Z')
}

/// `c` is one of `0` to `9`.
pub open spec fn ascii_digit(c: char) -> bool {
    '0' <= c && c <= '9'
}

/// `A` to `Z` become `a` to `z`; every other character stays.
pub open spec fn ascii_lower(c: char) -> char {
    if 'A' <= c && c <= 'Z' {
        (c as int + 32) as char
    } else {
        c
    }
}

/// `a` to `z` become `A` to `Z`; every other character stays.
pub open spec fn ascii_upper(c: char) -> char {
    if 'a' <= c && c <= 'z' {
        (c as int - 32) as char
    } else {
        c
    }
}

/// `s` with each ASCII capital letter made small.
pub open spec fn ascii_lowercase(s: Seq<char>) -> Seq<char> {
    Seq::new(s.len(), |i: int| ascii_lower(s[i]))
}

/// `s` with each small ASCII letter made capital.
pub open spec fn ascii_uppercase(s: Seq<char>) -> Seq<char> {
    Seq::new(s.len(), |i: int| ascii_upper(s[i]))
}

/// `c` is its own lowercase mapping.
pub open spec fn settled(c: char) -> bool {
    unicode_lowercase(c) == seq![c]
}

/// The characters with the Unicode property `White_Space`.
pub open spec fn white_space(c: char) -> bool {
    let n = c as int;
    ||| 0x09 <= n <= 0x0d
    ||| n == 0x20
    ||| n == 0x85
    ||| n == 0xa0
    ||| n == 0x1680
    ||| 0x2000 <= n <= 0x200a
    ||| n == 0x2028
    ||| n == 0x2029
    ||| n == 0x202f
    ||| n == 0x205f
    ||| n == 0x3000
}

/// Whether `c` has the Unicode property `White_Space`.
pub fn is_whitespace(c: char) -> (r: bool)
    ensures
        r == white_space(c),
{
    let n: u32 = c as u32;
    (0x09 <= n && n <= 0x0d) || n == 0x20 || n == 0x85 || n == 0xa0 || n == 0x1680 || (0x2000 <= n
        && n <= 0x200a) || n == 0x2028 || n == 0x2029 || n == 0x202f || n == 0x205f || n == 0x3000
}

// ---------------------------------------------------------------------------
// Strings and vectors of characters
// ---------------------------------------------------------------------------

/// The characters of `s`.
pub fn chars_of(s: &str) -> (r: Vec<char>)
    ensures
        r@ == s@,
{
    let mut out: Vec<char> = Vec::new();
    for c in it: s.chars()
        invariant
            it.seq() == s@,
            out@ == s@.take(it.index() as int),
    {
        assert(s@.take(it.index() + 1) =~= s@.take(it.index() as int).push(c));
        out.push(c);
    }
    assert(s@.take(s@.len() as int) =~= s@);
    out
}

/// The string made of the characters `chars[from..to]`.
pub fn string_of_range(chars: &Vec<char>, from: usize, to: usize) -> (r: String)
    requires
        from <= to <= chars@.len(),
    ensures
        r@ == chars@.subrange(from as int, to as int),
{
    let mut out: String = String::new();
    for i in from..to
        invariant
            from <= i <= to <= chars@.len(),
            out@ == chars@.subrange(from as int, i as int),
    {
        assert(chars@.subrange(from as int, i + 1) =~= chars@.subrange(from as int, i as int).push(
            chars@[i as int],
        ));
        out.push(chars[i]);
    }
    out
}

/// The string made of all of `chars`.
pub fn string_of(chars: &Vec<char>) -> (r: String)
    ensures
        r@ == chars@,
{
    let r = string_of_range(chars, 0, chars.len());
    assert(chars@.subrange(0, chars@.len() as int) =~= chars@);
    r
}

/// Whether two strings hold the same characters.
pub fn same_text(a: &str, b: &str) -> (r: bool)
    ensures
        r == (a@ == b@),
{
    let x = chars_of(a);
    let y = chars_of(b);
    if x.len() != y.len() {
        return false;
    }
    for i in 0..x.len()
        invariant
            x@ == a@,
            y@ == b@,
            x@.len() == y@.len(),
            forall|j: int| 0 <= j < i ==> x@[j] == y@[j],
    {
        if x[i] != y[i] {
            return false;
        }
    }
    assert(a@ =~= b@);
    true
}

/// The string `a` followed by `b`.
pub fn concat2(a: &str, b: &str) -> (r: String)
    ensures
        r@ == a@ + b@,
{
    let mut out = a.to_string();
    out.push_str(b);
    out
}

/// The string `a` followed by `b` and `c`.
pub fn concat3(a: &str, b: &str, c: &str) -> (r: String)
    ensures
        r@ == a@ + b@ + c@,
{
    let mut out = a.to_string();
    out.push_str(b);
    out.push_str(c);
    out
}

/// The views of a sequence of strings.
pub open spec fn views(parts: Seq<String>) -> Seq<Seq<char>> {
    Seq::new(parts.len(), |i: int| parts[i]@)
}

/// `parts` with `sep` between neighbours.
pub open spec fn joined(parts: Seq<Seq<char>>, sep: Seq<char>) -> Seq<char>
    decreases parts.len(),
{
    if parts.len() == 0 {
        Seq::empty()
    } else {
        let before = parts.drop_last();
        if before.len() == 0 {
            parts.last()
        } else {
            joined(before, sep) + sep + parts.last()
        }
    }
}

/// Joins `parts`, with `sep` between neighbours.
pub fn join(parts: &Vec<String>, sep: &str) -> (r: String)
    ensures
        r@ == joined(views(parts@), sep@),
{
    let mut out: String = String::new();
    for i in 0..parts.len()
        invariant
            out@ == joined(views(parts@).take(i as int), sep@),
    {
        proof {
            assert(views(parts@).take(i + 1).drop_last() =~= views(parts@).take(i as int));
        }
        if i > 0 {
            out.push_str(sep);
        }
        out.push_str(parts[i].as_str());
        assert(out@ =~= joined(views(parts@).take(i + 1), sep@));
    }
    assert(views(parts@).take(parts@.len() as int) =~= views(parts@));
    out
}

/// The join of two lists is the two joins with the separator between them.
pub proof fn lemma_joined_concat(a: Seq<Seq<char>>, b: Seq<Seq<char>>, sep: Seq<char>)
    requires
        a.len() > 0,
        b.len() > 0,
    ensures
        joined(a + b, sep) == joined(a, sep) + sep + joined(b, sep),
    decreases b.len(),
{
    let all = a + b;
    assert(all.drop_last() =~= a + b.drop_last());
    assert(all.last() == b.last());
    if b.len() == 1 {
        assert(a + b.drop_last() =~= a);
        assert(joined(b, sep) == b.last());
    } else {
        lemma_joined_concat(a, b.drop_last(), sep);
        assert(joined(all, sep) =~= joined(a, sep) + sep + joined(b, sep));
    }
}

/// A join starts with its first part.
pub proof fn lemma_join_from_the_front(parts: Seq<Seq<char>>, sep: Seq<char>)
    requires
        parts.len() > 1,
    ensures
        joined(parts, sep) == parts.first() + sep + joined(parts.drop_first(), sep),
    decreases parts.len(),
{
    let before = parts.drop_last();
    let rest = parts.drop_first();
    assert(rest.last() == parts.last());
    if before.len() == 1 {
        assert(joined(before, sep) == parts.first());
        assert(joined(rest, sep) == parts.last());
    } else {
        lemma_join_from_the_front(before, sep);
        assert(before.drop_first() =~= rest.drop_last());
        assert(joined(parts, sep) =~= parts.first() + sep + joined(rest, sep));
    }
}

// ---------------------------------------------------------------------------
// Trimming
// ---------------------------------------------------------------------------

/// `s` without its trailing white space.
pub open spec fn trimmed_end(s: Seq<char>) -> Seq<char>
    decreases s.len(),
{
    if s.len() > 0 && white_space(s.last()) {
        trimmed_end(s.drop_last())
    } else {
        s
    }
}

/// `s` without its leading white space.
pub open spec fn trimmed_start(s: Seq<char>) -> Seq<char>
    decreases s.len(),
{
    if s.len() > 0 && white_space(s.first()) {
        trimmed_start(s.drop_first())
    } else {
        s
    }
}

/// `s` without its leading and trailing white space.
pub open spec fn trimmed(s: Seq<char>) -> Seq<char> {
    trimmed_start(trimmed_end(s))
}

/// Removes trailing white space.
pub fn trim_end(s: &str) -> (r: String)
    ensures
        r@ == trimmed_end(s@),
{
    let chars = chars_of(s);
    let mut end: usize = chars.len();
    assert(s@.take(end as int) =~= s@);
    while end > 0 && is_whitespace(chars[end - 1])
        invariant
            chars@ == s@,
            end <= chars@.len(),
            trimmed_end(s@) == trimmed_end(s@.take(end as int)),
        decreases end,
    {
        assert(s@.take(end as int).drop_last() =~= s@.take(end - 1));
        end -= 1;
    }
    assert(chars@.subrange(0, end as int) =~= s@.take(end as int));
    string_of_range(&chars, 0, end)
}

/// Removes leading white space.
pub fn trim_start(s: &str) -> (r: String)
    ensures
        r@ == trimmed_start(s@),
{
    let chars = chars_of(s);
    let mut start: usize = 0;
    assert(s@.skip(0) =~= s@);
    while start < chars.len() && is_whitespace(chars[start])
        invariant
            chars@ == s@,
            start <= chars@.len(),
            trimmed_start(s@) == trimmed_start(s@.skip(start as int)),
        decreases chars@.len() - start,
    {
        assert(s@.skip(start as int).drop_first() =~= s@.skip(start + 1));
        start += 1;
    }
    assert(chars@.subrange(start as int, chars@.len() as int) =~= s@.skip(start as int));
    string_of_range(&chars, start, chars.len())
}

/// Removes leading and trailing white space.
pub fn trim(s: &str) -> (r: String)
    ensures
        r@ == trimmed(s@),
{
    let tail = trim_end(s);
    trim_start(tail.as_str())
}

/// Whether `s` is empty or all white space.
pub fn is_blank(s: &str) -> (r: bool)
    ensures
        r == (trimmed(s@).len() == 0),
{
    let t = trim(s);
    t.as_str().is_empty()
}

// ---------------------------------------------------------------------------
// Tokens
// ---------------------------------------------------------------------------

/// How many characters at the front of `s` satisfy `keep` without a gap.
pub open spec fn run_length(s: Seq<char>, keep: spec_fn(char) -> bool) -> nat
    decreases s.len(),
{
    if s.len() == 0 || !keep(s.first()) {
        0
    } else {
        1 + run_length(s.drop_first(), keep)
    }
}

/// The maximal runs of characters that satisfy `keep`, in order.
pub open spec fn runs(s: Seq<char>, keep: spec_fn(char) -> bool) -> Seq<Seq<char>>
    decreases s.len(),
    via runs_shrink
{
    if s.len() == 0 {
        Seq::empty()
    } else if !keep(s.first()) {
        runs(s.drop_first(), keep)
    } else {
        let n = run_length(s, keep) as int;
        seq![s.take(n)] + runs(s.skip(n), keep)
    }
}

#[via_fn]
proof fn runs_shrink(s: Seq<char>, keep: spec_fn(char) -> bool) {
    lemma_run_length(s, keep);
}

/// A run lies inside its text, consists of kept characters, and ends where the
/// text ends or at a character that is not kept.
pub proof fn lemma_run_length(s: Seq<char>, keep: spec_fn(char) -> bool)
    ensures
        run_length(s, keep) <= s.len(),
        s.len() > 0 && keep(s.first()) ==> run_length(s, keep) >= 1,
        forall|i: int| 0 <= i < run_length(s, keep) ==> keep(#[trigger] s[i]),
        run_length(s, keep) < s.len() ==> !keep(s[run_length(s, keep) as int]),
    decreases s.len(),
{
    if s.len() == 0 || !keep(s.first()) {
    } else {
        lemma_run_length(s.drop_first(), keep);
        let n = run_length(s.drop_first(), keep);
        assert forall|i: int| 0 <= i < run_length(s, keep) implies keep(#[trigger] s[i]) by {
            if i > 0 {
                assert(s[i] == s.drop_first()[i - 1]);
            }
        }
        if n + 1 < s.len() {
            assert(s[n as int + 1] == s.drop_first()[n as int]);
        }
    }
}

/// A run that reaches `n` kept characters and stops there has length `n`.
proof fn lemma_run_length_is(s: Seq<char>, keep: spec_fn(char) -> bool, n: nat)
    requires
        n <= s.len(),
        forall|i: int| 0 <= i < n ==> keep(#[trigger] s[i]),
        n < s.len() ==> !keep(s[n as int]),
    ensures
        run_length(s, keep) == n,
    decreases n,
{
    if n > 0 {
        assert(keep(s[0]));
        let t = s.drop_first();
        assert forall|i: int| 0 <= i < n - 1 implies keep(#[trigger] t[i]) by {
            assert(t[i] == s[i + 1]);
        }
        if n - 1 < t.len() {
            assert(t[n - 1] == s[n as int]);
        }
        lemma_run_length_is(t, keep, (n - 1) as nat);
    }
}

/// A gap of characters that are not kept parts the runs on its left from those on
/// its right.
pub proof fn lemma_runs_split(
    a: Seq<char>,
    gap: Seq<char>,
    b: Seq<char>,
    keep: spec_fn(char) -> bool,
)
    requires
        gap.len() > 0,
        forall|i: int| 0 <= i < gap.len() ==> !keep(#[trigger] gap[i]),
    ensures
        runs(a + gap + b, keep) == runs(a, keep) + runs(b, keep),
    decreases a.len(), gap.len(),
{
    let all = a + gap + b;
    if a.len() == 0 {
        assert(all.first() == gap[0]);
        assert(runs(a, keep) + runs(b, keep) =~= runs(b, keep));
        if gap.len() == 1 {
            assert(all.drop_first() =~= b);
        } else {
            let less = gap.drop_first();
            assert forall|i: int| 0 <= i < less.len() implies !keep(#[trigger] less[i]) by {
                assert(less[i] == gap[i + 1]);
            }
            lemma_runs_split(a, less, b, keep);
            assert(all.drop_first() =~= a + less + b);
        }
    } else if !keep(a.first()) {
        lemma_runs_split(a.drop_first(), gap, b, keep);
        assert(all.first() == a.first());
        assert(all.drop_first() =~= a.drop_first() + gap + b);
    } else {
        lemma_run_length(a, keep);
        let n = run_length(a, keep);
        assert forall|i: int| 0 <= i < n implies keep(#[trigger] all[i]) by {
            assert(all[i] == a[i]);
        }
        if n < a.len() {
            assert(all[n as int] == a[n as int]);
        } else {
            assert(all[n as int] == gap[0]);
        }
        lemma_run_length_is(all, keep, n);
        lemma_runs_split(a.skip(n as int), gap, b, keep);
        assert(all.first() == a.first());
        assert(all.take(n as int) =~= a.take(n as int));
        assert(all.skip(n as int) =~= a.skip(n as int) + gap + b);
        let later = runs(a.skip(n as int), keep);
        assert(seq![a.take(n as int)] + (later + runs(b, keep)) =~= (seq![a.take(n as int)] + later)
            + runs(b, keep));
    }
}

/// The character vectors as sequences.
pub open spec fn rows(v: Seq<Vec<char>>) -> Seq<Seq<char>> {
    Seq::new(v.len(), |i: int| v[i]@)
}

/// Splits `chars` into its maximal runs of kept characters; `kept` tells of each
/// character whether it is kept.
pub(crate) fn split_runs(
    chars: &Vec<char>,
    kept: &Vec<bool>,
    Ghost(keep): Ghost<spec_fn(char) -> bool>,
) -> (r: Vec<String>)
    requires
        kept@.len() == chars@.len(),
        forall|i: int| 0 <= i < chars@.len() ==> kept@[i] == keep(#[trigger] chars@[i]),
    ensures
        views(r@) == runs(chars@, keep),
{
    let mut out: Vec<String> = Vec::new();
    let mut i: usize = 0;
    assert(chars@.skip(0) =~= chars@);
    assert(views(out@) + runs(chars@, keep) =~= runs(chars@, keep));
    while i < chars.len()
        invariant
            i <= chars@.len(),
            kept@.len() == chars@.len(),
            forall|k: int| 0 <= k < chars@.len() ==> kept@[k] == keep(#[trigger] chars@[k]),
            runs(chars@, keep) == views(out@) + runs(chars@.skip(i as int), keep),
        decreases chars@.len() - i,
    {
        let ghost rest = chars@.skip(i as int);
        assert(rest.first() == chars@[i as int]);
        if !kept[i] {
            assert(rest.drop_first() =~= chars@.skip(i + 1));
            i += 1;
        } else {
            let start: usize = i;
            while i < chars.len() && kept[i]
                invariant
                    start <= i <= chars@.len(),
                    kept@.len() == chars@.len(),
                    forall|k: int| 0 <= k < chars@.len() ==> kept@[k] == keep(#[trigger] chars@[k]),
                    forall|k: int| start <= k < i ==> keep(#[trigger] chars@[k]),
                decreases chars@.len() - i,
            {
                i += 1;
            }
            let ghost n: nat = (i - start) as nat;
            proof {
                assert forall|k: int| 0 <= k < n implies keep(#[trigger] rest[k]) by {
                    assert(rest[k] == chars@[start + k]);
                }
                if n < rest.len() {
                    assert(rest[n as int] == chars@[i as int]);
                }
                lemma_run_length_is(rest, keep, n);
                assert(rest.skip(n as int) =~= chars@.skip(i as int));
                assert(rest.take(n as int) =~= chars@.subrange(start as int, i as int));
            }
            let ghost before = out@;
            let piece = string_of_range(chars, start, i);
            out.push(piece);
            assert(views(out@) =~= views(before) + seq![rest.take(n as int)]);
            assert(views(before) + (seq![rest.take(n as int)] + runs(chars@.skip(i as int), keep))
                =~= views(out@) + runs(chars@.skip(i as int), keep));
        }
    }
    assert(chars@.skip(i as int).len() == 0);
    assert(views(out@) + runs(chars@.skip(i as int), keep) =~= views(out@));
    out
}

/// The words of `s`: its maximal runs of characters other than white space.
pub open spec fn words(s: Seq<char>) -> Seq<Seq<char>> {
    runs(s, |c: char| !white_space(c))
}

/// Splits `s` into its words.
pub fn split_words(s: &str) -> (r: Vec<String>)
    ensures
        views(r@) == words(s@),
{
    let chars = chars_of(s);
    let mut kept: Vec<bool> = Vec::new();
    for i in 0..chars.len()
        invariant
            kept@.len() == i,
            forall|k: int| 0 <= k < i ==> kept@[k] == !white_space(#[trigger] chars@[k]),
    {
        kept.push(!is_whitespace(chars[i]));
    }
    split_runs(&chars, &kept, Ghost(|c: char| !white_space(c)))
}

/// `s` cut at every `/`.
pub open spec fn segments(s: Seq<char>) -> Seq<Seq<char>>
    decreases s.len(),
{
    if s.len() == 0 {
        seq![Seq::empty()]
    } else {
        let before = segments(s.drop_last());
        if s.last() == '/' {
            before.push(Seq::empty())
        } else {
            before.drop_last().push(before.last().push(s.last()))
        }
    }
}

/// Cuts `chars[from..]` at every `/`.
pub(crate) fn split_segments(chars: &Vec<char>, from: usize) -> (r: Vec<Vec<char>>)
    requires
        from <= chars@.len(),
    ensures
        rows(r@) == segments(chars@.skip(from as int)),
{
    let ghost s = chars@.skip(from as int);
    let mut done: Vec<Vec<char>> = Vec::new();
    let mut current: Vec<char> = Vec::new();
    assert(s.take(0) =~= Seq::empty());
    assert(rows(done@).push(current@) =~= segments(s.take(0)));
    for i in from..chars.len()
        invariant
            from <= chars@.len(),
            s == chars@.skip(from as int),
            rows(done@).push(current@) == segments(s.take(i - from)),
    {
        let c = chars[i];
        let ghost n = i - from;
        assert(s.take(n + 1).drop_last() =~= s.take(n));
        assert(s.take(n + 1).last() == c);
        assert(rows(done@).push(current@).drop_last() =~= rows(done@));
        assert(rows(done@).push(current@).last() == current@);
        if c == '/' {
            let ghost before = done@;
            let ghost word = current@;
            done.push(current);
            current = Vec::new();
            assert(rows(done@) =~= rows(before).push(word));
            assert(current@ =~= Seq::empty());
        } else {
            current.push(c);
        }
    }
    assert(s.take(s.len() as int) =~= s);
    let ghost before = done@;
    let ghost word = current@;
    done.push(current);
    assert(rows(done@) =~= rows(before).push(word));
    done
}

// ---------------------------------------------------------------------------
// Searching and folding
// ---------------------------------------------------------------------------

/// `needle` stands in `hay` at `at`.
pub open spec fn stands_at(hay: Seq<char>, needle: Seq<char>, at: int) -> bool {
    0 <= at <= hay.len() - needle.len() && hay.subrange(at, at + needle.len()) == needle
}

/// `needle` stands somewhere in `hay`.
pub open spec fn occurs(hay: Seq<char>, needle: Seq<char>) -> bool {
    exists|at: int| stands_at(hay, needle, at)
}

/// Whether `needle` stands somewhere in `hay`.
pub fn contains(hay: &str, needle: &str) -> (r: bool)
    ensures
        r == occurs(hay@, needle@),
{
    let h = chars_of(hay);
    let n = chars_of(needle);
    if n.len() > h.len() {
        return false;
    }
    let last: usize = h.len() - n.len();
    assert(h@.len() == h.len());
    let mut at: usize = 0;
    while at <= last
        invariant
            h@ == hay@,
            n@ == needle@,
            n@.len() <= h@.len(),
            last == h@.len() - n@.len(),
            h@.len() <= usize::MAX,
            at <= last + 1,
            forall|a: int| 0 <= a < at ==> !stands_at(hay@, needle@, a),
        decreases last + 1 - at,
    {
        let mut k: usize = 0;
        while k < n.len() && h[at + k] == n[k]
            invariant
                h@ == hay@,
                n@ == needle@,
                n@.len() <= h@.len(),
                last == h@.len() - n@.len(),
                h@.len() <= usize::MAX,
                at <= last,
                k <= n@.len(),
                forall|j: int| 0 <= j < k ==> h@[at + j] == n@[j],
            decreases n@.len() - k,
        {
            k += 1;
        }
        if k == n.len() {
            assert(hay@.subrange(at as int, at + needle@.len()) =~= needle@);
            assert(stands_at(hay@, needle@, at as int));
            return true;
        }
        assert(!stands_at(hay@, needle@, at as int)) by {
            assert(hay@.subrange(at as int, at + needle@.len())[k as int] == h@[at + k]);
        }
        if at == last {
            assert forall|a: int| !stands_at(hay@, needle@, a) by {
                if stands_at(hay@, needle@, a) {
                    assert(a <= last);
                }
            }
            return false;
        }
        at += 1;
    }
    false
}

/// Makes the ASCII capital letters small.
pub fn to_ascii_lowercase(s: &str) -> (r: String)
    ensures
        r@ == ascii_lowercase(s@),
{
    let chars = chars_of(s);
    let mut out: String = String::new();
    for i in 0..chars.len()
        invariant
            chars@ == s@,
            out@ == ascii_lowercase(s@).take(i as int),
    {
        let c = chars[i];
        let low: char = if 'A' <= c && c <= 'Z' {
            (c as u8 + 32u8) as char
        } else {
            c
        };
        out.push(low);
        assert(low == ascii_lower(c));
        assert(ascii_lowercase(s@).take(i + 1) =~= ascii_lowercase(s@).take(i as int).push(low));
    }
    assert(ascii_lowercase(s@).take(s@.len() as int) =~= ascii_lowercase(s@));
    out
}

// ---------------------------------------------------------------------------
// Numerals and snippets
// ---------------------------------------------------------------------------

/// The character of a digit below ten.
pub open spec fn digit(d: nat) -> char {
    (48 + d) as char
}

/// The decimal numeral of `n`, without leading zeros.
pub open spec fn numeral(n: nat) -> Seq<char>
    decreases n,
{
    if n < 10 {
        seq![digit(n)]
    } else {
        numeral(n / 10).push(digit(n % 10))
    }
}

/// The decimal numeral of `n`, with a minus sign in front of a negative one.
pub open spec fn signed_numeral(n: int) -> Seq<char> {
    if n < 0 {
        seq!['-'] + numeral((-n) as nat)
    } else {
        numeral(n as nat)
    }
}

/// The last `width` decimal digits of `n`, padded with zeros on the left.
pub open spec fn padded(n: nat, width: nat) -> Seq<char>
    decreases width,
{
    if width == 0 {
        Seq::empty()
    } else {
        padded(n / 10, (width - 1) as nat).push(digit(n % 10))
    }
}

/// Writes `n` in decimal.
pub fn decimal(n: u64) -> (r: String)
    ensures
        r@ == numeral(n as nat),
    decreases n,
{
    if n < 10 {
        let mut out: String = String::new();
        out.push((48u8 + n as u8) as char);
        assert(out@ =~= seq![digit(n as nat)]);
        out
    } else {
        let mut out = decimal(n / 10);
        out.push((48u8 + (n % 10) as u8) as char);
        out
    }
}

/// Writes `n` in decimal, with a minus sign in front of a negative number.
pub fn signed_decimal(n: i32) -> (r: String)
    ensures
        r@ == signed_numeral(n as int),
{
    if n < 0 {
        let magnitude: u64 = (-(n as i64)) as u64;
        let digits = decimal(magnitude);
        let mut out: String = String::new();
        out.push('-');
        out.push_str(digits.as_str());
        assert(out@ =~= seq!['-'] + numeral((-(n as int)) as nat));
        out
    } else {
        decimal(n as u64)
    }
}

/// Writes the last `width` decimal digits of `n`.
pub fn padded_decimal(n: u64, width: usize) -> (r: String)
    ensures
        r@ == padded(n as nat, width as nat),
    decreases width,
{
    if width == 0 {
        String::new()
    } else {
        let mut out = padded_decimal(n / 10, width - 1);
        out.push((48u8 + (n % 10) as u8) as char);
        out
    }
}

/// `s`, or its first `max` characters and an ellipsis where it is longer.
pub open spec fn snipped(s: Seq<char>, max: nat) -> Seq<char> {
    if s.len() <= max {
        s
    } else {
        s.take(max as int).push('\u{2026}')
    }
}

/// Cuts `s` to `max` characters and marks the cut with an ellipsis.
pub fn snippet(s: &str, max: usize) -> (r: String)
    ensures
        r@ == snipped(s@, max as nat),
{
    let chars = chars_of(s);
    if chars.len() <= max {
        s.to_string()
    } else {
        let mut out = string_of_range(&chars, 0, max);
        assert(chars@.subrange(0, max as int) =~= s@.take(max as int));
        out.push('\u{2026}');
        out
    }
}

/// What occurs in a text occurs in the text with anything behind it.
pub proof fn lemma_occurs_in_front(a: Seq<char>, b: Seq<char>, needle: Seq<char>)
    requires
        occurs(a, needle),
    ensures
        occurs(a + b, needle),
{
    let at = choose|at: int| stands_at(a, needle, at);
    let all = a + b;
    assert(all.subrange(at, at + needle.len()) =~= a.subrange(at, at + needle.len()));
    assert(stands_at(all, needle, at));
}

/// What occurs in a text occurs in the text with anything in front of it.
pub proof fn lemma_occurs_behind(a: Seq<char>, b: Seq<char>, needle: Seq<char>)
    requires
        occurs(b, needle),
    ensures
        occurs(a + b, needle),
{
    let at = choose|at: int| stands_at(b, needle, at);
    let all = a + b;
    let p = at + a.len();
    assert(all.subrange(p, p + needle.len()) =~= b.subrange(at, at + needle.len()));
    assert(stands_at(all, needle, p));
}

} // verus!
