//! Text helpers: decimal numbers, splitting into lines, and views of string lists.

use vstd::prelude::*;
use vstd::string::*;

verus! {

/// The views of a list of strings.
pub open spec fn views(lines: Seq<String>) -> Seq<Seq<char>> {
    lines.map_values(|line: String| line@)
}

/// The character for a digit below ten.
pub open spec fn digit_char(d: nat) -> char {
    if d == 0 {
        '0'
    } else if d == 1 {
        '1'
    } else if d == 2 {
        '2'
    } else if d == 3 {
        '3'
    } else if d == 4 {
        '4'
    } else if d == 5 {
        '5'
    } else if d == 6 {
        '6'
    } else if d == 7 {
        '7'
    } else if d == 8 {
        '8'
    } else {
        '9'
    }
}

/// A number written in base ten, without leading zeros.
pub open spec fn spec_decimal(n: nat) -> Seq<char>
    decreases n,
{
    if n < 10 {
        seq![digit_char(n)]
    } else {
        spec_decimal(n / 10).push(digit_char(n % 10))
    }
}

fn digit_str(d: u64) -> (text: &'static str)
    requires
        d < 10,
    ensures
        text@ == seq![digit_char(d as nat)],
{
    proof {
        reveal_strlit("0");
        reveal_strlit("1");
        reveal_strlit("2");
        reveal_strlit("3");
        reveal_strlit("4");
        reveal_strlit("5");
        reveal_strlit("6");
        reveal_strlit("7");
        reveal_strlit("8");
        reveal_strlit("9");
    }
    let text = if d == 0 {
        "0"
    } else if d == 1 {
        "1"
    } else if d == 2 {
        "2"
    } else if d == 3 {
        "3"
    } else if d == 4 {
        "4"
    } else if d == 5 {
        "5"
    } else if d == 6 {
        "6"
    } else if d == 7 {
        "7"
    } else if d == 8 {
        "8"
    } else {
        "9"
    };
    assert(text@ =~= seq![digit_char(d as nat)]);
    text
}

/// Writes `n` in base ten.
pub fn decimal(n: u64) -> (text: String)
    ensures
        text@ == spec_decimal(n as nat),
    decreases n,
{
    if n < 10 {
        String::from_str(digit_str(n))
    } else {
        let mut text = decimal(n / 10);
        text.append(digit_str(n % 10));
        assert(text@ =~= spec_decimal(n as nat));
        text
    }
}

/// The position of the first line feed at or after `pos`, or the length of `s`
/// when there is none.
pub open spec fn line_end(s: Seq<char>, pos: int) -> int
    decreases s.len() - pos,
{
    if pos < 0 || pos >= s.len() || s[pos] == '\n' {
        pos
    } else {
        line_end(s, pos + 1)
    }
}

/// The end of a line lies between its start and the end of the text; it holds a
/// line feed unless it is the end of the text, and no line feed stands before it.
pub proof fn line_end_bounds(s: Seq<char>, pos: int)
    requires
        0 <= pos <= s.len(),
    ensures
        pos <= line_end(s, pos) <= s.len(),
        line_end(s, pos) < s.len() ==> s[line_end(s, pos)] == '\n',
        forall|i: int| pos <= i < line_end(s, pos) ==> s[i] != '\n',
    decreases s.len() - pos,
{
    if pos < s.len() && s[pos] != '\n' {
        line_end_bounds(s, pos + 1);
    }
}

/// Finds the end of the line that holds `pos`.
pub fn find_line_end(s: &str, pos: usize, len: usize) -> (end: usize)
    requires
        len == s@.len(),
        pos <= len,
    ensures
        end == line_end(s@, pos as int),
        pos <= end <= len,
{
    let mut end: usize = pos;
    while end < len && s.get_char(end) != '\n'
        invariant
            len == s@.len(),
            pos <= end <= len,
            line_end(s@, pos as int) == line_end(s@, end as int),
        decreases len - end,
    {
        end = end + 1;
    }
    end
}

/// A line without the line feed that ended it: where there was one, a carriage
/// return just before it goes too.
pub open spec fn strip_cr(line: Seq<char>, ended: bool) -> Seq<char> {
    if ended && line.len() > 0 && line.last() == '\r' {
        line.drop_last()
    } else {
        line
    }
}

/// The lines of `s` from `pos` on. Lines end at a line feed, or at a carriage return
/// followed by a line feed; the last line needs no ending, and an empty rest holds
/// no line.
pub open spec fn lines_from(s: Seq<char>, pos: int) -> Seq<Seq<char>>
    decreases s.len() - pos,
{
    if pos < 0 || pos >= s.len() {
        Seq::empty()
    } else {
        let end = line_end(s, pos);
        if end < pos || end >= s.len() {
            seq![s.subrange(pos, s.len() as int)]
        } else {
            seq![strip_cr(s.subrange(pos, end), true)] + lines_from(s, end + 1)
        }
    }
}

/// The lines of a text.
pub open spec fn spec_lines(s: Seq<char>) -> Seq<Seq<char>> {
    lines_from(s, 0)
}

/// Splits a text into its lines.
pub fn lines(text: &str) -> (out: Vec<String>)
    ensures
        views(out@) == spec_lines(text@),
{
    let len = text.unicode_len();
    let mut out: Vec<String> = Vec::new();
    let mut pos: usize = 0;
    assert(views(out@) =~= Seq::<Seq<char>>::empty());
    while pos < len
        invariant
            len == text@.len(),
            pos <= len,
            spec_lines(text@) == views(out@) + lines_from(text@, pos as int),
        decreases len - pos,
    {
        let end = find_line_end(text, pos, len);
        proof {
            line_end_bounds(text@, pos as int);
        }
        let mut stop: usize = end;
        if end < len && end > pos && text.get_char(end - 1) == '\r' {
            stop = end - 1;
        }
        let line = String::from_str(text.substring_char(pos, stop));
        proof {
            let whole = text@.subrange(pos as int, end as int);
            assert(line@ =~= strip_cr(whole, end < len)) by {
                if end < len && end > pos && text@[end - 1] == '\r' {
                    assert(whole.last() == '\r');
                    assert(whole.drop_last() =~= text@.subrange(pos as int, stop as int));
                } else if end > pos {
                    assert(whole.last() == text@[end - 1]);
                }
            }
            assert(views(out@.push(line)) =~= views(out@) + seq![line@]);
            if end < len {
                assert(views(out@) + (seq![line@] + lines_from(text@, end + 1)) =~= (views(out@)
                    + seq![line@]) + lines_from(text@, end + 1));
            } else {
                assert(whole =~= text@.subrange(pos as int, text@.len() as int));
                assert(lines_from(text@, len as int) =~= Seq::<Seq<char>>::empty());
                assert(views(out@) + seq![line@] =~= (views(out@) + seq![line@]) + Seq::<
                    Seq<char>,
                >::empty());
            }
        }
        out.push(line);
        pos = if end < len {
            end + 1
        } else {
            len
        };
    }
    assert(lines_from(text@, pos as int) =~= Seq::<Seq<char>>::empty());
    assert(views(out@) + Seq::<Seq<char>>::empty() =~= views(out@));
    out
}


/// Space and tab.
pub open spec fn is_blank(c: char) -> bool {
    c == ' ' || c == '\t'
}

/// Space, tab, line feed and carriage return.
pub open spec fn is_space(c: char) -> bool {
    is_blank(c) || c == '\n' || c == '\r'
}

/// The first position at or after `pos` that holds no space of any kind, or the
/// length of `s`.
pub open spec fn skip_spaces(s: Seq<char>, pos: int) -> int
    decreases s.len() - pos,
{
    if pos < 0 || pos >= s.len() || !is_space(s[pos]) {
        pos
    } else {
        skip_spaces(s, pos + 1)
    }
}

/// The first position in `pos..end` that holds neither space nor tab, or `end`.
pub open spec fn skip_blanks(s: Seq<char>, pos: int, end: int) -> int
    decreases end - pos,
{
    if pos < 0 || pos >= end || end > s.len() || !is_blank(s[pos]) {
        pos
    } else {
        skip_blanks(s, pos + 1, end)
    }
}

/// The first position in `pos..end` that holds a space or a tab, or `end`.
pub open spec fn word_end(s: Seq<char>, pos: int, end: int) -> int
    decreases end - pos,
{
    if pos < 0 || pos >= end || end > s.len() || is_blank(s[pos]) {
        pos
    } else {
        word_end(s, pos + 1, end)
    }
}

/// The first position in `pos..end` that holds `c`, or `end`.
pub open spec fn find_char(s: Seq<char>, c: char, pos: int, end: int) -> int
    decreases end - pos,
{
    if pos < 0 || pos >= end || end > s.len() || s[pos] == c {
        pos
    } else {
        find_char(s, c, pos + 1, end)
    }
}

pub fn is_blank_char(c: char) -> (b: bool)
    ensures
        b == is_blank(c),
{
    c == ' ' || c == '\t'
}

pub fn scan_spaces(s: &str, pos: usize, len: usize) -> (out: usize)
    requires
        len == s@.len(),
        pos <= len,
    ensures
        out == skip_spaces(s@, pos as int),
        pos <= out <= len,
{
    let mut out: usize = pos;
    while out < len && (is_blank_char(s.get_char(out)) || s.get_char(out) == '\n' || s.get_char(
        out,
    ) == '\r')
        invariant
            len == s@.len(),
            pos <= out <= len,
            skip_spaces(s@, pos as int) == skip_spaces(s@, out as int),
        decreases len - out,
    {
        out = out + 1;
    }
    out
}

pub fn scan_blanks(s: &str, pos: usize, end: usize) -> (out: usize)
    requires
        pos <= end <= s@.len(),
    ensures
        out == skip_blanks(s@, pos as int, end as int),
        pos <= out <= end,
{
    let mut out: usize = pos;
    while out < end && is_blank_char(s.get_char(out))
        invariant
            pos <= out <= end <= s@.len(),
            skip_blanks(s@, pos as int, end as int) == skip_blanks(s@, out as int, end as int),
        decreases end - out,
    {
        out = out + 1;
    }
    out
}

pub fn scan_word(s: &str, pos: usize, end: usize) -> (out: usize)
    requires
        pos <= end <= s@.len(),
    ensures
        out == word_end(s@, pos as int, end as int),
        pos <= out <= end,
{
    let mut out: usize = pos;
    while out < end && !is_blank_char(s.get_char(out))
        invariant
            pos <= out <= end <= s@.len(),
            word_end(s@, pos as int, end as int) == word_end(s@, out as int, end as int),
        decreases end - out,
    {
        out = out + 1;
    }
    out
}

pub fn scan_char(s: &str, c: char, pos: usize, end: usize) -> (out: usize)
    requires
        pos <= end <= s@.len(),
    ensures
        out == find_char(s@, c, pos as int, end as int),
        pos <= out <= end,
{
    let mut out: usize = pos;
    while out < end && s.get_char(out) != c
        invariant
            pos <= out <= end <= s@.len(),
            find_char(s@, c, pos as int, end as int) == find_char(s@, c, out as int, end as int),
        decreases end - out,
    {
        out = out + 1;
    }
    out
}

/// Whether the part `pos..end` of `s` reads `word`.
pub fn part_is(s: &str, pos: usize, end: usize, word: &str) -> (same: bool)
    requires
        pos <= end <= s@.len(),
    ensures
        same == (s@.subrange(pos as int, end as int) == word@),
{
    let n = word.unicode_len();
    if end - pos != n {
        return false;
    }
    let mut i: usize = 0;
    while i < n
        invariant
            n == word@.len(),
            pos <= end <= s@.len(),
            end - pos == n,
            i <= n,
            forall|j: int| 0 <= j < i ==> s@[pos + j] == word@[j],
        decreases n - i,
    {
        if s.get_char(pos + i) != word.get_char(i) {
            assert(s@.subrange(pos as int, end as int)[i as int] != word@[i as int]);
            return false;
        }
        i = i + 1;
    }
    assert(s@.subrange(pos as int, end as int) =~= word@);
    true
}

/// A copy of the part `pos..end` of `s`.
pub fn part(s: &str, pos: usize, end: usize) -> (out: String)
    requires
        pos <= end <= s@.len(),
    ensures
        out@ == s@.subrange(pos as int, end as int),
{
    String::from_str(s.substring_char(pos, end))
}

} // verus!
