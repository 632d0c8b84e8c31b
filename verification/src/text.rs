//! Text as sequences of characters: conversion from and to strings, and the
//! line structure of a file's content.

use vstd::prelude::*;

verus! {

/// `String::push` appends one character to the end of the string.
pub assume_specification[ String::push ](s: &mut String, ch: char)
    ensures
        final(s)@ == old(s)@.push(ch),
;

/// What `str::trim` returns for a string with the characters `s`.
pub uninterp spec fn trimmed(s: Seq<char>) -> Seq<char>;

/// Calls `str::trim`, which returns `s` without its leading and trailing
/// white space, as Unicode defines white space.
#[verifier::external_body]
pub(crate) fn trim(s: &str) -> (t: &str)
    ensures
        t@ == trimmed(s@),
{
    s.trim()
}

/// The views of the rows of a table of characters.
pub open spec fn rows(table: Seq<Vec<char>>) -> Seq<Seq<char>> {
    Seq::new(table.len(), |i: int| table[i]@)
}

/// The characters of each of some strings.
pub open spec fn texts(strings: Seq<String>) -> Seq<Seq<char>> {
    Seq::new(strings.len(), |i: int| strings[i]@)
}

/// No character of `line` is a line feed.
pub open spec fn is_single_line(line: Seq<char>) -> bool {
    forall|k: int| 0 <= k < line.len() ==> line[k] != '\n'
}

/// The index of the first line feed of `s`, or `s.len()` where it has none.
pub open spec fn line_end(s: Seq<char>) -> int
    decreases s.len(),
{
    if s.len() == 0 || s[0] == '\n' {
        0
    } else {
        1 + line_end(s.drop_first())
    }
}

/// The lines of `s`: the pieces of `s` between its line feeds. A text
/// with `k` line feeds has `k + 1` lines; the empty text is one empty line,
/// and a text that ends with a line feed ends with an empty line. Only the
/// line feed ends a line: a carriage return is a character of its line, so
/// that joining the lines gives back `s`, whatever its line endings.
pub open spec fn split_lines(s: Seq<char>) -> Seq<Seq<char>>
    decreases s.len(),
{
    let n = line_end(s);
    if 0 <= n < s.len() {
        seq![s.take(n)] + split_lines(s.skip(n + 1))
    } else {
        seq![s]
    }
}

/// `lines` with one line feed between each two neighbours.
pub open spec fn join_lines(lines: Seq<Seq<char>>) -> Seq<char>
    decreases lines.len(),
{
    if lines.len() == 0 {
        Seq::empty()
    } else if lines.len() == 1 {
        lines[0]
    } else {
        lines[0] + seq!['\n'] + join_lines(lines.drop_first())
    }
}

/// `line_end(s)` is `j` where no character of `s` before `j` is a line feed
/// and `j` is the end of `s` or the place of a line feed.
pub proof fn lemma_line_end_is(s: Seq<char>, j: int)
    requires
        0 <= j <= s.len(),
        forall|k: int| 0 <= k < j ==> s[k] != '\n',
        j < s.len() ==> s[j] == '\n',
    ensures
        line_end(s) == j,
    decreases j,
{
    if j > 0 {
        let rest = s.drop_first();
        assert forall|k: int| 0 <= k < j - 1 implies rest[k] != '\n' by {
            assert(rest[k] == s[k + 1]);
        }
        lemma_line_end_is(rest, j - 1);
    }
}

/// `line_end(s)` lies within `s` or at its end, and where it lies within
/// `s` the character there is a line feed.
pub proof fn lemma_line_end(s: Seq<char>)
    ensures
        0 <= line_end(s) <= s.len(),
        line_end(s) < s.len() ==> s[line_end(s)] == '\n',
    decreases s.len(),
{
    if s.len() > 0 && s[0] != '\n' {
        lemma_line_end(s.drop_first());
    }
}

/// A text always has a line, and the empty text is one empty line.
pub proof fn lemma_text_has_a_line(s: Seq<char>)
    ensures
        split_lines(s).len() >= 1,
        s.len() == 0 ==> split_lines(s) == seq![Seq::<char>::empty()],
{
    if s.len() == 0 {
        assert(s == Seq::<char>::empty());
    }
}

/// Splitting undoes joining: the lines of `join_lines(lines)` are `lines`,
/// for every buffer whose lines hold no line feed. So a buffer that is
/// saved and opened again holds the same lines, empty ones included.
pub proof fn lemma_split_of_join(lines: Seq<Seq<char>>)
    requires
        lines.len() >= 1,
        forall|i: int| 0 <= i < lines.len() ==> is_single_line(#[trigger] lines[i]),
    ensures
        split_lines(join_lines(lines)) == lines,
    decreases lines.len(),
{
    let first = lines[0];
    assert(is_single_line(first));
    if lines.len() == 1 {
        lemma_line_end_is(first, first.len() as int);
        assert(seq![first] == lines);
    } else {
        let rest = lines.drop_first();
        let joined = join_lines(lines);
        assert(joined == first + seq!['\n'] + join_lines(rest));
        assert forall|i: int| 0 <= i < rest.len() implies is_single_line(#[trigger] rest[i]) by {
            assert(rest[i] == lines[i + 1]);
        }
        lemma_split_of_join(rest);
        let n = first.len() as int;
        assert forall|k: int| 0 <= k < n implies joined[k] != '\n' by {
            assert(joined[k] == first[k]);
        }
        assert(joined[n] == '\n');
        lemma_line_end_is(joined, n);
        assert(joined.take(n) == first);
        assert(joined.skip(n + 1) == join_lines(rest));
        assert(split_lines(joined) == seq![first] + rest);
        assert(seq![first] + rest == lines);
    }
}

/// Joining undoes splitting: the lines of any text, joined by line feeds,
/// are that text. So a file that is opened and saved unchanged keeps its
/// content, line endings included.
pub proof fn lemma_join_of_split(s: Seq<char>)
    ensures
        join_lines(split_lines(s)) == s,
    decreases s.len(),
{
    lemma_line_end(s);
    let n = line_end(s);
    if n < s.len() {
        let rest = s.skip(n + 1);
        lemma_join_of_split(rest);
        lemma_text_has_a_line(rest);
        let lines = seq![s.take(n)] + split_lines(rest);
        assert(lines.drop_first() == split_lines(rest));
        assert(join_lines(lines) == s.take(n) + seq!['\n'] + rest);
        assert(s.take(n) + seq!['\n'] + rest == s);
    }
}

/// The characters of `s`, in order.
pub fn chars_of(s: &str) -> (chars: Vec<char>)
    ensures
        chars@ == s@,
{
    let mut chars: Vec<char> = Vec::new();
    for c in it: s.chars()
        invariant
            it.seq() == s@,
            chars@ == s@.take(it.index()),
    {
        chars.push(c);
    }
    chars
}

/// The string made of `chars`, in order.
pub fn string_of(chars: &Vec<char>) -> (s: String)
    ensures
        s@ == chars@,
{
    let mut s = String::new();
    let mut i: usize = 0;
    while i < chars.len()
        invariant
            i <= chars.len(),
            s@ == chars@.take(i as int),
        decreases chars.len() - i,
    {
        s.push(chars[i]);
        i += 1;
    }
    s
}

/// Whether `chars` spells exactly the text `word`.
pub fn spells(chars: &Vec<char>, word: &str) -> (same: bool)
    ensures
        same == (chars@ == word@),
{
    let other = chars_of(word);
    if chars.len() != other.len() {
        return false;
    }
    let mut i: usize = 0;
    while i < chars.len()
        invariant
            i <= chars.len(),
            chars.len() == other.len(),
            other@ == word@,
            chars@.take(i as int) == other@.take(i as int),
        decreases chars.len() - i,
    {
        if chars[i] != other[i] {
            return false;
        }
        assert(chars@.take(i + 1) == chars@.take(i as int).push(chars@[i as int]));
        assert(other@.take(i + 1) == other@.take(i as int).push(other@[i as int]));
        i += 1;
    }
    assert(chars@.take(i as int) == chars@);
    assert(other@.take(i as int) == other@);
    true
}

/// Splits a file's content into the lines of a buffer, at its line feeds:
/// never fewer than one line.
pub fn lines_of(content: &str) -> (lines: Vec<Vec<char>>)
    ensures
        rows(lines@) == split_lines(content@),
        lines.len() >= 1,
{
    let chars = chars_of(content);
    let n = chars.len();
    let mut lines: Vec<Vec<char>> = Vec::new();
    let mut start: usize = 0;
    assert(chars@.skip(0) == chars@);
    assert(rows(lines@) + split_lines(chars@) == split_lines(chars@));
    loop
        invariant_except_break
            start <= n,
            split_lines(chars@) == rows(lines@) + split_lines(chars@.skip(start as int)),
        invariant
            n == chars.len(),
        ensures
            rows(lines@) == split_lines(chars@),
            lines.len() >= 1,
        decreases n - start,
    {
        let ghost tail = chars@.skip(start as int);
        let ghost before = rows(lines@);
        let mut line: Vec<char> = Vec::new();
        let mut end: usize = start;
        while end < n && chars[end] != '\n'
            invariant
                start <= end <= n,
                n == chars.len(),
                line@ == chars@.subrange(start as int, end as int),
                forall|k: int| start <= k < end ==> chars@[k] != '\n',
            decreases n - end,
        {
            line.push(chars[end]);
            end += 1;
        }
        proof {
            assert forall|k: int| 0 <= k < end - start implies tail[k] != '\n' by {
                assert(tail[k] == chars@[start + k]);
            }
            lemma_line_end_is(tail, end - start);
            assert(line@ == tail.take(end - start));
        }
        lines.push(line);
        assert(rows(lines@) == before + seq![line@]);
        if end < n {
            proof {
                assert(tail.skip(end - start + 1) == chars@.skip(end + 1));
                assert(before + (seq![line@] + split_lines(chars@.skip(end + 1))) == before
                    + seq![line@] + split_lines(chars@.skip(end + 1)));
            }
            start = end + 1;
        } else {
            proof {
                assert(tail.take(end - start) == tail);
                assert(split_lines(tail) == seq![tail]);
            }
            break;
        }
    }
    lines
}

/// Joins the lines of a buffer into a file's content, with a line feed
/// between each two neighbours.
pub fn text_of(lines: &Vec<Vec<char>>) -> (content: String)
    ensures
        content@ == join_lines(rows(lines@)),
{
    let mut content = String::new();
    let n = lines.len();
    let mut i: usize = 0;
    assert(rows(lines@).skip(0) == rows(lines@));
    assert(content@ + join_lines(rows(lines@)) == join_lines(rows(lines@)));
    while i < n
        invariant
            i <= n,
            n == lines.len(),
            join_lines(rows(lines@)) == content@ + join_lines(rows(lines@).skip(i as int)),
        decreases n - i,
    {
        let ghost before = content@;
        let ghost tail = rows(lines@).skip(i as int);
        let line = &lines[i];
        let mut k: usize = 0;
        while k < line.len()
            invariant
                k <= line.len(),
                content@ == before + line@.take(k as int),
            decreases line.len() - k,
        {
            content.push(line[k]);
            k += 1;
        }
        assert(line@.take(k as int) == line@);
        assert(tail[0] == line@);
        assert(tail.drop_first() == rows(lines@).skip(i + 1));
        if i + 1 < n {
            content.push('\n');
            assert(content@ == before + line@ + seq!['\n']);
            assert(before + (line@ + seq!['\n'] + join_lines(tail.drop_first())) == before + line@
                + seq!['\n'] + join_lines(tail.drop_first()));
        } else {
            assert(tail.len() == 1);
            assert(join_lines(tail.drop_first()) == Seq::<char>::empty());
        }
        i += 1;
    }
    assert(rows(lines@).skip(n as int).len() == 0);
    content
}

} // verus!
