//! Text that the commands write: reports made of lines, and the cleaning of
//! a tool's raw output.

use vstd::prelude::*;
use vstd::string::*;
use vstd::utf8::*;

verus! {

/// The characters of each line of `lines`.
pub open spec fn lines_of(lines: Seq<String>) -> Seq<Seq<char>> {
    lines.map_values(|line: String| line@)
}

/// What a command writes to standard output and to standard error, and
/// whether it ends successfully (exit status 0) or not (exit status 1).
pub struct Report {
    pub out: Vec<String>,
    pub err: Vec<String>,
    pub success: bool,
}

/// The mathematical content of a [`Report`].
pub struct ReportView {
    pub out: Seq<Seq<char>>,
    pub err: Seq<Seq<char>>,
    pub success: bool,
}

impl View for Report {
    type V = ReportView;

    open spec fn view(&self) -> ReportView {
        ReportView { out: lines_of(self.out@), err: lines_of(self.err@), success: self.success }
    }
}

/// Appends one line.
pub fn push_line(lines: &mut Vec<String>, line: String)
    ensures
        lines_of(final(lines)@) == lines_of(old(lines)@).push(line@),
{
    lines.push(line);
    assert(lines_of(lines@) =~= lines_of(old(lines)@).push(line@));
}

/// Appends one line given as a string slice.
pub fn push_str_line(lines: &mut Vec<String>, line: &str)
    ensures
        lines_of(final(lines)@) == lines_of(old(lines)@).push(line@),
{
    push_line(lines, String::from_str(line));
}

/// Whether two strings hold the same characters.
pub fn str_eq(a: &str, b: &str) -> (same: bool)
    ensures
        same == (a@ == b@),
{
    let a_owned = String::from_str(a);
    let b_owned = String::from_str(b);
    a_owned == b_owned
}

/// The string `a` followed by `b`.
pub fn join2(a: &str, b: &str) -> (joined: String)
    ensures
        joined@ == a@ + b@,
{
    String::from_str(a).concat(b)
}

/// The string `a`, `b` and `c` one after the other.
pub fn join3(a: &str, b: &str, c: &str) -> (joined: String)
    ensures
        joined@ == a@ + b@ + c@,
{
    String::from_str(a).concat(b).concat(c)
}

/// A white-space character in the sense of Unicode's `White_Space`
/// property, the set that `char::is_whitespace` and `str::trim` use.
pub open spec fn is_white_space(c: char) -> bool {
    let u = c as int;
    ||| 0x09 <= u <= 0x0D
    ||| u == 0x20
    ||| u == 0x85
    ||| u == 0xA0
    ||| u == 0x1680
    ||| 0x2000 <= u <= 0x200A
    ||| u == 0x2028
    ||| u == 0x2029
    ||| u == 0x202F
    ||| u == 0x205F
    ||| u == 0x3000
}

/// `s` without its leading white space.
pub open spec fn strip_leading(s: Seq<char>) -> Seq<char>
    decreases s.len(),
{
    if s.len() > 0 && is_white_space(s[0]) {
        strip_leading(s.drop_first())
    } else {
        s
    }
}

/// `s` without its trailing white space.
pub open spec fn strip_trailing(s: Seq<char>) -> Seq<char>
    decreases s.len(),
{
    if s.len() > 0 && is_white_space(s.last()) {
        strip_trailing(s.drop_last())
    } else {
        s
    }
}

/// `s` without its leading and trailing white space.
pub open spec fn trimmed(s: Seq<char>) -> Seq<char> {
    strip_trailing(strip_leading(s))
}

proof fn lemma_strip_leading_is_suffix(s: Seq<char>) -> (start: int)
    ensures
        0 <= start <= s.len(),
        strip_leading(s) == s.subrange(start, s.len() as int),
        forall|i: int| 0 <= i < start ==> is_white_space(#[trigger] s[i]),
        start < s.len() ==> !is_white_space(s[start]),
    decreases s.len(),
{
    if s.len() > 0 && is_white_space(s[0]) {
        let k = lemma_strip_leading_is_suffix(s.drop_first());
        assert forall|i: int| 0 <= i < k + 1 implies is_white_space(#[trigger] s[i]) by {
            if i > 0 {
                assert(s[i] == s.drop_first()[i - 1]);
            }
        }
        assert(s.drop_first().subrange(k, s.len() - 1) =~= s.subrange(k + 1, s.len() as int));
        k + 1
    } else {
        assert(s.subrange(0, s.len() as int) =~= s);
        0
    }
}

proof fn lemma_strip_trailing_is_prefix(s: Seq<char>) -> (end: int)
    ensures
        0 <= end <= s.len(),
        strip_trailing(s) == s.subrange(0, end),
        forall|i: int| end <= i < s.len() ==> is_white_space(#[trigger] s[i]),
        end > 0 ==> !is_white_space(s[end - 1]),
    decreases s.len(),
{
    if s.len() > 0 && is_white_space(s.last()) {
        let k = lemma_strip_trailing_is_prefix(s.drop_last());
        assert(s.drop_last().subrange(0, k) =~= s.subrange(0, k));
        assert forall|i: int| k <= i < s.len() implies is_white_space(#[trigger] s[i]) by {
            if i < s.len() - 1 {
                assert(s[i] == s.drop_last()[i]);
            }
        }
        k
    } else {
        assert(s.subrange(0, s.len() as int) =~= s);
        s.len() as int
    }
}

/// Trimming keeps a contiguous part of the text, removes only white space
/// to either side of it, leaves no white space at either end, and trimming
/// again changes nothing.
pub proof fn lemma_trimmed(s: Seq<char>)
    ensures
        exists|start: int, end: int|
            0 <= start <= end <= s.len() && trimmed(s) == s.subrange(start, end) && (forall|i: int|
                0 <= i < start ==> is_white_space(#[trigger] s[i])) && (forall|i: int|
                end <= i < s.len() ==> is_white_space(#[trigger] s[i])),
        trimmed(s).len() > 0 ==> !is_white_space(trimmed(s)[0]) && !is_white_space(
            trimmed(s).last(),
        ),
        trimmed(trimmed(s)) == trimmed(s),
{
    let start = lemma_strip_leading_is_suffix(s);
    let rest = s.subrange(start, s.len() as int);
    let k = lemma_strip_trailing_is_prefix(rest);
    let t = trimmed(s);
    assert(t =~= s.subrange(start, start + k));
    assert forall|i: int| start + k <= i < s.len() implies is_white_space(#[trigger] s[i]) by {
        assert(s[i] == rest[i - start]);
    }
    if t.len() > 0 {
        assert(t[0] == rest[0]);
        assert(t.last() == rest[k - 1]);
    }
    let start2 = lemma_strip_leading_is_suffix(t);
    if t.len() > 0 {
        assert(start2 == 0);
    }
    assert(strip_leading(t) =~= t);
    let k2 = lemma_strip_trailing_is_prefix(t);
    if t.len() > 0 {
        assert(k2 == t.len());
    }
    assert(strip_trailing(t) =~= t);
}

fn is_white_space_char(c: char) -> (white: bool)
    ensures
        white == is_white_space(c),
{
    let u = c as u32;
    (0x09 <= u && u <= 0x0D) || u == 0x20 || u == 0x85 || u == 0xA0 || u == 0x1680 || (0x2000 <= u
        && u <= 0x200A) || u == 0x2028 || u == 0x2029 || u == 0x202F || u == 0x205F || u == 0x3000
}

/// `text` without its leading and trailing white space, as `str::trim`
/// gives it.
pub fn trim_white_space(text: &str) -> (clean: String)
    ensures
        clean@ == trimmed(text@),
{
    let ghost s = text@;
    let len = text.unicode_len();
    let mut start: usize = 0;
    assert(s.subrange(0, len as int) =~= s);
    while start < len && is_white_space_char(text.get_char(start))
        invariant
            start <= len,
            len == s.len(),
            s == text@,
            strip_leading(s) == strip_leading(s.subrange(start as int, len as int)),
        decreases len - start,
    {
        assert(s.subrange(start as int, len as int).drop_first() =~= s.subrange(
            start + 1,
            len as int,
        ));
        start += 1;
    }
    assert(strip_leading(s) == s.subrange(start as int, len as int));
    let mut end: usize = len;
    while end > start && is_white_space_char(text.get_char(end - 1))
        invariant
            start <= end <= len,
            len == s.len(),
            s == text@,
            strip_leading(s) == s.subrange(start as int, len as int),
            trimmed(s) == strip_trailing(s.subrange(start as int, end as int)),
        decreases end - start,
    {
        assert(s.subrange(start as int, end as int).drop_last() =~= s.subrange(
            start as int,
            end - 1,
        ));
        end -= 1;
    }
    assert(trimmed(s) == s.subrange(start as int, end as int));
    String::from_str(text.substring_char(start, end))
}

/// The text that `String::from_utf8_lossy` makes of `bytes`.
pub uninterp spec fn utf8_lossy(bytes: Seq<u8>) -> Seq<char>;

/// Decodes `bytes` as UTF-8 with `String::from_utf8_lossy`. The claim is
/// that the result is a function of the bytes alone and, as std documents,
/// that bytes which are valid UTF-8 are decoded unchanged. What replaces an
/// invalid sequence (U+FFFD) is left to the name `utf8_lossy`.
#[verifier::external_body]
fn decode_utf8_lossy(bytes: &[u8]) -> (text: String)
    ensures
        text@ == utf8_lossy(bytes@),
        valid_utf8(bytes@) ==> text@ == decode_utf8(bytes@),
{
    String::from_utf8_lossy(bytes).into_owned()
}

/// The output of a tool read as text and trimmed, as `String::from_utf8_lossy`
/// and `str::trim` give it.
pub fn trimmed_output(bytes: &[u8]) -> (text: String)
    ensures
        text@ == trimmed(utf8_lossy(bytes@)),
        valid_utf8(bytes@) ==> text@ == trimmed(decode_utf8(bytes@)),
{
    let decoded = decode_utf8_lossy(bytes);
    trim_white_space(decoded.as_str())
}

} // verus!
