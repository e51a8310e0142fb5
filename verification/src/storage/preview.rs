//! The short summary shown for a snippet in lists: its first three lines,
//! joined by single spaces and cut to two hundred characters.

use crate::text::{chars_of, string_of};
use vstd::prelude::*;

verus! {

/// How many lines of the content a preview draws on.
pub const PREVIEW_LINES: usize = 3;

/// The largest number of characters in a preview.
pub const PREVIEW_CHARS: usize = 200;

/// The number of characters before the first line feed of `s`, or the length
/// of `s` when it holds no line feed.
pub open spec fn line_length(s: Seq<char>) -> int
    decreases s.len(),
{
    if s.len() == 0 || s[0] == '\n' {
        0
    } else {
        1 + line_length(s.drop_first())
    }
}

/// A line without the carriage return that stood before its line feed.
pub open spec fn without_carriage_return(line: Seq<char>) -> Seq<char> {
    if line.len() > 0 && line.last() == '\r' {
        line.drop_last()
    } else {
        line
    }
}

/// The lines of `s`. A line ends at a line feed, or at a carriage return
/// directly followed by one; neither belongs to the line. Text after the last
/// line feed is a line of its own unless it is empty, and keeps a carriage
/// return it may end in.
pub open spec fn split_lines(s: Seq<char>) -> Seq<Seq<char>>
    decreases s.len(),
{
    if s.len() == 0 {
        Seq::empty()
    } else {
        let n = line_length(s);
        if 0 <= n < s.len() {
            seq![without_carriage_return(s.take(n))] + split_lines(s.skip(n + 1))
        } else {
            seq![s]
        }
    }
}

/// The lines joined into one text with a single space between neighbours.
pub open spec fn join_with_spaces(lines: Seq<Seq<char>>) -> Seq<char>
    decreases lines.len(),
{
    if lines.len() == 0 {
        Seq::empty()
    } else if lines.len() == 1 {
        lines[0]
    } else {
        join_with_spaces(lines.drop_last()) + seq![' '] + lines.last()
    }
}

/// The first `limit` items of `s`, or all of `s` if it has fewer.
pub open spec fn at_most<A>(s: Seq<A>, limit: int) -> Seq<A> {
    if s.len() <= limit {
        s
    } else {
        s.take(limit)
    }
}

/// The preview of a snippet with text `content`.
pub open spec fn preview_of(content: Seq<char>) -> Seq<char> {
    at_most(
        join_with_spaces(at_most(split_lines(content), PREVIEW_LINES as int)),
        PREVIEW_CHARS as int,
    )
}

/// `line_length` stops at the first line feed and nowhere before it.
pub proof fn lemma_line_length(s: Seq<char>)
    ensures
        0 <= line_length(s) <= s.len(),
        forall|i: int| 0 <= i < line_length(s) ==> s[i] != '\n',
        line_length(s) < s.len() ==> s[line_length(s)] == '\n',
    decreases s.len(),
{
    if s.len() != 0 && s[0] != '\n' {
        let rest = s.drop_first();
        lemma_line_length(rest);
        assert forall|i: int| 0 <= i < line_length(s) implies s[i] != '\n' by {
            if i > 0 {
                assert(s[i] == rest[i - 1]);
            }
        }
    }
}

/// A position that holds the first line feed of `s`, or its end when there is
/// none, is the length of its first line.
pub proof fn lemma_line_length_is(s: Seq<char>, n: int)
    requires
        0 <= n <= s.len(),
        forall|i: int| 0 <= i < n ==> s[i] != '\n',
        n < s.len() ==> s[n] == '\n',
    ensures
        line_length(s) == n,
{
    lemma_line_length(s);
}

/// A preview never holds more than `PREVIEW_CHARS` characters.
pub proof fn lemma_preview_is_short(content: Seq<char>)
    ensures
        preview_of(content).len() <= PREVIEW_CHARS,
{
}

/// A preview draws on nothing but the first `PREVIEW_LINES` lines: two texts
/// that agree on those have the same preview.
pub proof fn lemma_preview_reads_first_lines(a: Seq<char>, b: Seq<char>)
    requires
        at_most(split_lines(a), PREVIEW_LINES as int) == at_most(
            split_lines(b),
            PREVIEW_LINES as int,
        ),
    ensures
        preview_of(a) == preview_of(b),
{
}

/// Appends `source[from..to]` to `out`, dropping what would take it past
/// `PREVIEW_CHARS` characters.
fn append_limited(out: &mut Vec<char>, source: &Vec<char>, from: usize, to: usize)
    requires
        from <= to <= source.len(),
        old(out).len() <= PREVIEW_CHARS,
    ensures
        final(out)@ == at_most(
            old(out)@ + source@.subrange(from as int, to as int),
            PREVIEW_CHARS as int,
        ),
{
    let mut i: usize = from;
    while i < to && out.len() < PREVIEW_CHARS
        invariant
            from <= i <= to <= source.len(),
            out.len() <= PREVIEW_CHARS,
            out@ == old(out)@ + source@.subrange(from as int, i as int),
        decreases to - i,
    {
        out.push(source[i]);
        i += 1;
    }
}

/// The preview of the text held in `chars`.
fn preview_chars(chars: &Vec<char>) -> (out: Vec<char>)
    ensures
        out@ == preview_of(chars@),
{
    let len: usize = chars.len();
    let mut out: Vec<char> = Vec::new();
    let mut pos: usize = 0;
    let mut taken: usize = 0;
    let ghost lines = split_lines(chars@);
    let ghost done: Seq<Seq<char>> = Seq::empty();
    assert(chars@.skip(0) == chars@);
    while taken < PREVIEW_LINES && pos < len
        invariant
            len == chars.len(),
            pos <= len,
            taken <= PREVIEW_LINES,
            done.len() == taken,
            lines == split_lines(chars@),
            lines == done + split_lines(chars@.skip(pos as int)),
            out@ == at_most(join_with_spaces(done), PREVIEW_CHARS as int),
        decreases len - pos,
    {
        let ghost rest = chars@.skip(pos as int);
        let mut end: usize = pos;
        while end < len && chars[end] != '\n'
            invariant
                pos <= end <= len,
                len == chars.len(),
                forall|i: int| pos <= i < end ==> chars@[i] != '\n',
            decreases len - end,
        {
            end += 1;
        }
        proof {
            lemma_line_length_is(rest, end - pos);
        }
        let stop: usize = if end < len && end > pos && chars[end - 1] == '\r' {
            end - 1
        } else {
            end
        };
        let ghost line = chars@.subrange(pos as int, stop as int);
        proof {
            if end < len {
                assert(without_carriage_return(rest.take(end - pos)) == line);
                assert(rest.skip(end - pos + 1) == chars@.skip(end + 1));
            }
        }
        let next: usize = if end < len {
            end + 1
        } else {
            len
        };
        proof {
            assert(done.push(line).drop_last() == done);
        }
        if taken > 0 {
            if out.len() < PREVIEW_CHARS {
                out.push(' ');
            }
        }
        append_limited(&mut out, chars, pos, stop);
        proof {
            done = done.push(line);
        }
        pos = next;
        taken += 1;
    }
    proof {
        if pos < len {
            assert(lines.take(PREVIEW_LINES as int) == done);
        }
    }
    out
}

/// The preview of `content`: its first three lines joined by single spaces,
/// cut to two hundred characters.
pub fn create_preview(content: &str) -> (preview: String)
    ensures
        preview@ == preview_of(content@),
        preview@.len() <= PREVIEW_CHARS,
{
    let chars = chars_of(content);
    let out = preview_chars(&chars);
    string_of(&out)
}

} // verus!
