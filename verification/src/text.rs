//! Text primitives shared by the other modules.
//!
//! Every function here is specified over the sequence of characters that a
//! string holds, so that callers can reason about URLs and command output
//! without caring how the bytes are laid out.

use vstd::prelude::*;
use vstd::string::*;

verus! {

/// `s` ends with `suffix`.
pub open spec fn ends_with(s: Seq<char>, suffix: Seq<char>) -> bool {
    suffix.len() <= s.len() && s.subrange(s.len() - suffix.len(), s.len() as int) == suffix
}

/// `pattern` stands in `s` at position `at`.
pub open spec fn occurs_at(s: Seq<char>, pattern: Seq<char>, at: int) -> bool {
    0 <= at && at + pattern.len() <= s.len() && s.subrange(at, at + pattern.len()) == pattern
}

/// What is left of `s` from position `from` on, once every occurrence of
/// `pattern` has been replaced by `with`. Occurrences are found scanning
/// left to right and do not overlap; the text put in is not scanned again.
pub open spec fn replace_from(s: Seq<char>, pattern: Seq<char>, with: Seq<char>, from: int) -> Seq<
    char,
>
    decreases s.len() - from,
{
    if from < 0 || from >= s.len() {
        Seq::empty()
    } else if pattern.len() == 0 {
        s.skip(from)
    } else if occurs_at(s, pattern, from) {
        with + replace_from(s, pattern, with, from + pattern.len())
    } else {
        seq![s[from]] + replace_from(s, pattern, with, from + 1)
    }
}

/// `s` with every occurrence of `pattern` replaced by `with`. An empty
/// pattern occurs nowhere.
pub open spec fn replace(s: Seq<char>, pattern: Seq<char>, with: Seq<char>) -> Seq<char> {
    replace_from(s, pattern, with, 0)
}

/// The position of the first line feed of `s` at or after `from`, or the
/// length of `s` if there is none.
pub open spec fn line_end(s: Seq<char>, from: int) -> int
    decreases s.len() - from,
{
    if from < 0 || from >= s.len() {
        s.len() as int
    } else if s[from] == '\n' {
        from
    } else {
        line_end(s, from + 1)
    }
}

/// A line without its terminator: a line that a line feed ended loses one
/// carriage return that stood directly before the line feed.
pub open spec fn trim_line(line: Seq<char>, terminated: bool) -> Seq<char> {
    if terminated && line.len() > 0 && line.last() == '\r' {
        line.drop_last()
    } else {
        line
    }
}

/// The lines of `s` that begin at or after position `from`.
pub open spec fn lines_from(s: Seq<char>, from: int) -> Seq<Seq<char>>
    decreases s.len() - from + 1,
    via lines_from_terminates
{
    if from < 0 || from >= s.len() {
        Seq::empty()
    } else {
        let end = line_end(s, from);
        seq![trim_line(s.subrange(from, end), end < s.len())] + lines_from(s, end + 1)
    }
}

#[via_fn]
proof fn lines_from_terminates(s: Seq<char>, from: int) {
    if 0 <= from < s.len() {
        lemma_line_end(s, from);
    }
}

/// The lines of `s`. A line ends at a line feed, or at a carriage return
/// directly followed by a line feed; the terminator is not part of the line.
/// The last line needs no terminator, and nothing follows a final terminator.
pub open spec fn lines(s: Seq<char>) -> Seq<Seq<char>> {
    lines_from(s, 0)
}

/// The digit character for `d`.
pub open spec fn digit(d: nat) -> char
    recommends
        d < 10,
{
    "0123456789"@[d as int]
}

/// `n` in decimal, without sign or leading zeros.
pub open spec fn decimal(n: nat) -> Seq<char>
    decreases n,
{
    if n < 10 {
        seq![digit(n)]
    } else {
        decimal(n / 10).push(digit(n % 10))
    }
}

/// The position returned by `line_end` is the first line feed, if any.
pub proof fn lemma_line_end(s: Seq<char>, from: int)
    requires
        0 <= from <= s.len(),
    ensures
        from <= line_end(s, from) <= s.len(),
        line_end(s, from) < s.len() ==> s[line_end(s, from)] == '\n',
        forall|i: int| from <= i < line_end(s, from) ==> s[i] != '\n',
    decreases s.len() - from,
{
    if from < s.len() && s[from] != '\n' {
        lemma_line_end(s, from + 1);
    }
}

/// No line holds a line feed.
pub proof fn law_lines_hold_no_line_feed(s: Seq<char>, from: int)
    requires
        0 <= from <= s.len(),
    ensures
        forall|k: int, i: int|
            0 <= k < lines_from(s, from).len() && 0 <= i < lines_from(s, from)[k].len()
                ==> lines_from(s, from)[k][i] != '\n',
    decreases s.len() - from,
{
    if from < s.len() {
        let end = line_end(s, from);
        lemma_line_end(s, from);
        if end < s.len() {
            law_lines_hold_no_line_feed(s, end + 1);
        }
        let head = trim_line(s.subrange(from, end), end < s.len());
        let rest = lines_from(s, end + 1);
        assert forall|k: int, i: int|
            0 <= k < lines_from(s, from).len() && 0 <= i < lines_from(s, from)[k].len()
            implies lines_from(s, from)[k][i] != '\n' by {
            if k == 0 {
                assert(lines_from(s, from)[0] == head);
                assert(head[i] == s[from + i]);
            } else {
                assert(lines_from(s, from)[k] == rest[k - 1]);
            }
        }
    }
}

/// Where the pattern occurs nowhere, replacing changes nothing.
pub proof fn law_replace_without_occurrence(
    s: Seq<char>,
    pattern: Seq<char>,
    with: Seq<char>,
    from: int,
)
    requires
        0 <= from <= s.len(),
        forall|at: int| from <= at ==> !occurs_at(s, pattern, at),
    ensures
        replace_from(s, pattern, with, from) == s.skip(from),
    decreases s.len() - from,
{
    if from < s.len() && pattern.len() > 0 {
        law_replace_without_occurrence(s, pattern, with, from + 1);
        assert(s.skip(from) =~= seq![s[from]] + s.skip(from + 1));
    } else {
        assert(replace_from(s, pattern, with, from) =~= s.skip(from));
    }
}

/// The characters of `s`, in order.
pub fn to_chars(s: &str) -> (chars: Vec<char>)
    ensures
        chars@ == s@,
{
    let mut chars: Vec<char> = Vec::new();
    for c in it: s.chars()
        invariant
            chars@ == it.seq().take(it.index()),
            it.seq() == s@,
    {
        chars.push(c);
    }
    chars
}

/// `a` followed by `b`.
pub fn joined(a: &str, b: &str) -> (joined: String)
    ensures
        joined@ == a@ + b@,
{
    let mut joined = String::from_str(a);
    joined.append(b);
    joined
}

/// Whether two strings hold the same characters.
pub fn same_text(a: &str, b: &str) -> (same: bool)
    ensures
        same == (a@ == b@),
{
    let left = a.to_owned();
    let right = b.to_owned();
    left == right
}

/// Whether `pattern` stands in `text` at position `at`.
pub fn chars_occur_at(text: &Vec<char>, pattern: &Vec<char>, at: usize) -> (found: bool)
    ensures
        found == occurs_at(text@, pattern@, at as int),
{
    if at > text.len() || pattern.len() > text.len() - at {
        return false;
    }
    let mut i: usize = 0;
    while i < pattern.len()
        invariant
            at + pattern.len() <= text.len(),
            i <= pattern.len(),
            forall|j: int| 0 <= j < i ==> text@[at + j] == pattern@[j],
        decreases pattern.len() - i,
    {
        if text[at + i] != pattern[i] {
            assert(text@.subrange(at as int, at + pattern.len())[i as int] != pattern@[i as int]);
            return false;
        }
        i += 1;
    }
    assert(text@.subrange(at as int, at + pattern.len()) =~= pattern@);
    true
}

/// Whether `s` ends with `suffix`.
pub fn str_ends_with(s: &str, suffix: &str) -> (found: bool)
    ensures
        found == ends_with(s@, suffix@),
{
    let text = to_chars(s);
    let tail = to_chars(suffix);
    if tail.len() > text.len() {
        return false;
    }
    chars_occur_at(&text, &tail, text.len() - tail.len())
}

/// `s` with every occurrence of `pattern` replaced by `with`.
pub fn str_replace(s: &str, pattern: &str, with: &str) -> (out: String)
    ensures
        out@ == replace(s@, pattern@, with@),
{
    let text = to_chars(s);
    let pat = to_chars(pattern);
    if pat.len() == 0 {
        assert(replace(s@, pattern@, with@) =~= s@);
        return String::from_str(s);
    }
    let mut out = String::new();
    let mut copied: usize = 0;
    let mut pos: usize = 0;
    assert(out@ + s@.subrange(0, 0) =~= Seq::<char>::empty());
    while pos < text.len()
        invariant
            text@ == s@,
            pat@ == pattern@,
            pat.len() > 0,
            copied <= pos <= text.len(),
            out@ + s@.subrange(copied as int, pos as int) + replace_from(
                s@,
                pattern@,
                with@,
                pos as int,
            ) == replace(s@, pattern@, with@),
        decreases text.len() - pos,
    {
        if chars_occur_at(&text, &pat, pos) {
            out.append(s.substring_char(copied, pos));
            out.append(with);
            pos += pat.len();
            copied = pos;
            assert(s@.subrange(copied as int, pos as int) =~= Seq::<char>::empty());
        } else {
            assert(s@.subrange(copied as int, pos as int) + seq![s@[pos as int]] =~= s@.subrange(
                copied as int,
                pos + 1,
            ));
            pos += 1;
        }
    }
    out.append(s.substring_char(copied, pos));
    out
}

/// The lines of `s`.
pub fn split_lines(s: &str) -> (out: Vec<String>)
    ensures
        out.deep_view() == lines(s@),
{
    let text = to_chars(s);
    let mut out: Vec<String> = Vec::new();
    let mut start: usize = 0;
    let mut pos: usize = 0;
    while pos < text.len()
        invariant
            text@ == s@,
            start <= pos <= text.len(),
            line_end(s@, start as int) == line_end(s@, pos as int),
            out.deep_view() + lines_from(s@, start as int) == lines(s@),
        decreases text.len() - pos,
    {
        if text[pos] == '\n' {
            let end: usize = if pos > start && text[pos - 1] == '\r' {
                pos - 1
            } else {
                pos
            };
            let line = String::from_str(s.substring_char(start, end));
            assert(line@ =~= trim_line(s@.subrange(start as int, pos as int), true));
            let ghost before = out.deep_view();
            out.push(line);
            assert(out.deep_view() =~= before + seq![line@]);
            start = pos + 1;
            pos = start;
        } else {
            pos += 1;
        }
    }
    if start < text.len() {
        let line = String::from_str(s.substring_char(start, text.len()));
        let ghost before = out.deep_view();
        out.push(line);
        assert(out.deep_view() =~= before + seq![line@]);
        assert(lines_from(s@, text.len() + 1) =~= Seq::<Seq<char>>::empty());
    }
    out
}

/// The text of one decimal digit.
fn digit_text(d: u16) -> (text: &'static str)
    requires
        d < 10,
    ensures
        text@ == seq![digit(d as nat)],
{
    let digits = "0123456789";
    proof {
        reveal_strlit("0123456789");
    }
    let at: usize = d as usize;
    let text = digits.substring_char(at, at + 1);
    assert(text@ =~= seq![digit(d as nat)]);
    text
}

/// `n` in decimal.
pub fn u16_to_decimal(n: u16) -> (out: String)
    ensures
        out@ == decimal(n as nat),
{
    let mut out = String::from_str(digit_text(n % 10));
    let mut rest: u16 = n / 10;
    while rest > 0
        invariant
            rest > 0 ==> decimal(rest as nat) + out@ == decimal(n as nat),
            rest == 0 ==> out@ == decimal(n as nat),
        decreases rest,
    {
        let mut longer = String::from_str(digit_text(rest % 10));
        longer.append(out.as_str());
        proof {
            let d = digit((rest % 10) as nat);
            if rest >= 10 {
                assert(decimal((rest / 10) as nat).push(d) + out@ =~= decimal((rest / 10) as nat)
                    + longer@);
            }
        }
        out = longer;
        rest = rest / 10;
    }
    out
}

} // verus!
