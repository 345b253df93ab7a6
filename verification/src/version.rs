//! Version strings of the form `major.minor[...]`, and the decimal text of
//! unsigned integers.

use vstd::prelude::*;
use vstd::string::*;

verus! {

/// A character that ends a field of a version string.
pub open spec fn is_separator(c: char) -> bool {
    c == '.' || c == '-' || c == '+'
}

/// An ASCII decimal digit.
pub open spec fn is_digit(c: char) -> bool {
    '0' as int <= c as int <= '9' as int
}

/// The value of an ASCII decimal digit.
pub open spec fn digit_value(c: char) -> int {
    c as int - '0' as int
}

/// The ASCII digit whose value is `d`.
pub open spec fn digit_char(d: int) -> char {
    ('0' as int + d) as char
}

/// Every character of `s` is an ASCII digit.
pub open spec fn all_digits(s: Seq<char>) -> bool {
    forall|i: int| 0 <= i < s.len() ==> is_digit(#[trigger] s[i])
}

/// The number that the digits `s` denote in base ten (most significant first).
pub open spec fn decimal_value(s: Seq<char>) -> int
    decreases s.len(),
{
    if s.len() == 0 {
        0
    } else {
        decimal_value(s.drop_last()) * 10 + digit_value(s.last())
    }
}

/// The base-ten digits of `n`, without leading zeros.
pub open spec fn decimal_digits(n: nat) -> Seq<char>
    decreases n,
{
    if n < 10 {
        seq![digit_char(n as int)]
    } else {
        decimal_digits(n / 10) + seq![digit_char((n % 10) as int)]
    }
}

/// What `u32::from_str` makes of a text without sign: a non-empty run of
/// ASCII digits whose value fits in 32 bits, and nothing else.
pub open spec fn parse_u32(s: Seq<char>) -> Option<u32> {
    if s.len() > 0 && all_digits(s) && decimal_value(s) <= u32::MAX {
        Some(decimal_value(s) as u32)
    } else {
        None
    }
}

/// The index of the first separator of `s` at or after `start`, or the
/// length of `s` when there is none.
pub open spec fn next_separator(s: Seq<char>, start: int) -> int
    decreases s.len() - start,
{
    if start >= s.len() {
        s.len() as int
    } else if is_separator(s[start]) {
        start
    } else {
        next_separator(s, start + 1)
    }
}

/// The first two fields of `s` split at `.`, `-` and `+`, or `None` when
/// `s` holds no separator and so has a single field.
pub open spec fn leading_fields(s: Seq<char>) -> Option<(Seq<char>, Seq<char>)> {
    let first_end = next_separator(s, 0);
    if first_end == s.len() {
        None
    } else {
        let second_end = next_separator(s, first_end + 1);
        Some((s.subrange(0, first_end), s.subrange(first_end + 1, second_end)))
    }
}

/// `(major, minor) >= min` in lexicographic order.
pub open spec fn at_least(major: u32, minor: u32, min: (u32, u32)) -> bool {
    major > min.0 || (major == min.0 && minor >= min.1)
}

/// Whether the version `s`, read as `major.minor[...]`, is at least `min`;
/// `None` when its first two fields are not both 32-bit unsigned numbers.
pub open spec fn version_at_least_spec(s: Seq<char>, min: (u32, u32)) -> Option<bool> {
    match leading_fields(s) {
        Some((major_text, minor_text)) => match (parse_u32(major_text), parse_u32(minor_text)) {
            (Some(major), Some(minor)) => Some(at_least(major, minor, min)),
            _ => None,
        },
        None => None,
    }
}

proof fn lemma_decimal_value_nonneg(s: Seq<char>)
    requires
        all_digits(s),
    ensures
        decimal_value(s) >= 0,
    decreases s.len(),
{
    if s.len() > 0 {
        lemma_decimal_value_nonneg(s.drop_last());
    }
}

/// The value of a prefix of a run of digits is at most the value of the run.
proof fn lemma_decimal_value_prefix(s: Seq<char>, n: int)
    requires
        all_digits(s),
        0 <= n <= s.len(),
    ensures
        decimal_value(s.subrange(0, n)) <= decimal_value(s),
    decreases s.len(),
{
    if n == s.len() {
        assert(s.subrange(0, n) =~= s);
    } else {
        lemma_decimal_value_prefix(s.drop_last(), n);
        assert(s.drop_last().subrange(0, n) =~= s.subrange(0, n));
        lemma_decimal_value_nonneg(s.drop_last());
    }
}

/// `next_separator` stops at the first separator and only there.
proof fn lemma_next_separator_at(s: Seq<char>, start: int, k: int)
    requires
        0 <= start <= k <= s.len(),
        forall|i: int| start <= i < k ==> !is_separator(#[trigger] s[i]),
        k == s.len() || is_separator(s[k]),
    ensures
        next_separator(s, start) == k,
    decreases k - start,
{
    if start < k {
        lemma_next_separator_at(s, start + 1, k);
    }
}

/// The decimal digits of a number are a non-empty run of digits with that
/// value, without a leading zero (zero itself is written "0").
pub proof fn lemma_decimal_digits(n: nat)
    ensures
        decimal_digits(n).len() > 0,
        all_digits(decimal_digits(n)),
        decimal_value(decimal_digits(n)) == n,
        n > 0 ==> decimal_digits(n)[0] != '0',
        n == 0 ==> decimal_digits(n) == seq!['0'],
    decreases n,
{
    let s = decimal_digits(n);
    if n >= 10 {
        lemma_decimal_digits(n / 10);
        assert(s.drop_last() =~= decimal_digits(n / 10));
        assert(digit_value(s.last()) == n % 10);
        assert(n == (n / 10) * 10 + n % 10);
        assert(decimal_value(s) == decimal_value(s.drop_last()) * 10 + digit_value(s.last()));
        assert(s[0] == decimal_digits(n / 10)[0]);
    } else {
        assert(s.drop_last() =~= Seq::<char>::empty());
        assert(digit_value(s.last()) == n);
        assert(decimal_value(s) == decimal_value(s.drop_last()) * 10 + digit_value(s.last()));
    }
}

/// Reading back the decimal text `major.minor` followed by any further
/// fields gives the numbers that were written, so the comparison is the
/// lexicographic comparison of `(major, minor)` with `min`.
pub proof fn lemma_version_of_decimal_text(major: u32, minor: u32, rest: Seq<char>, min: (u32, u32))
    requires
        rest.len() == 0 || rest[0] == '.' || rest[0] == '-' || rest[0] == '+',
    ensures
        version_at_least_spec(
            decimal_digits(major as nat) + seq!['.'] + decimal_digits(minor as nat) + rest,
            min,
        ) == Some(major > min.0 || (major == min.0 && minor >= min.1)),
{
    let a = decimal_digits(major as nat);
    let b = decimal_digits(minor as nat);
    lemma_decimal_digits(major as nat);
    lemma_decimal_digits(minor as nat);
    let s = a + seq!['.'] + b + rest;
    assert forall|i: int| 0 <= i < a.len() implies !is_separator(#[trigger] s[i]) by {
        assert(s[i] == a[i]);
        assert(is_digit(a[i]));
    }
    assert(s[a.len() as int] == '.');
    lemma_next_separator_at(s, 0, a.len() as int);
    let first: int = a.len() as int;
    let second: int = first + 1 + b.len();
    assert forall|i: int| first + 1 <= i < second implies !is_separator(#[trigger] s[i]) by {
        assert(s[i] == b[i - a.len() - 1]);
        assert(is_digit(b[i - a.len() - 1]));
    }
    if rest.len() > 0 {
        assert(s[second] == rest[0]);
    }
    lemma_next_separator_at(s, first + 1, second);
    assert(s.subrange(0, a.len() as int) =~= a);
    assert(s.subrange(first + 1, second) =~= b);
}

/// The answer depends on the minimum only through the comparison: a
/// readable version stays readable whatever the minimum, and a version that
/// meets a minimum meets every lower one.
pub proof fn lemma_version_at_least_monotone(s: Seq<char>, min: (u32, u32), lower: (u32, u32))
    requires
        lower.0 < min.0 || (lower.0 == min.0 && lower.1 <= min.1),
    ensures
        version_at_least_spec(s, min) is Some <==> version_at_least_spec(s, lower) is Some,
        version_at_least_spec(s, min) == Some(true) ==> version_at_least_spec(s, lower) == Some(
            true,
        ),
{
}

/// `next_separator` stays within the text and stops at a separator or at
/// the end.
proof fn lemma_next_separator_bounds(s: Seq<char>, start: int)
    requires
        0 <= start <= s.len(),
    ensures
        start <= next_separator(s, start) <= s.len(),
        next_separator(s, start) < s.len() ==> is_separator(s[next_separator(s, start)]),
    decreases s.len() - start,
{
    if start < s.len() && !is_separator(s[start]) {
        lemma_next_separator_bounds(s, start + 1);
    }
}

/// `s` is a run of digits `s[0..i]`, a separator `s[i]`, a run of digits
/// `s[i+1..j]` that ends `s` or is followed by a separator, both runs
/// non-empty with values that fit in 32 bits, and `answer` is the
/// lexicographic comparison of those values with `min`.
pub open spec fn version_shape(s: Seq<char>, i: int, j: int, min: (u32, u32), answer: bool) -> bool {
    &&& 0 < i && i + 1 < j && j <= s.len()
    &&& (s[i] == '.' || s[i] == '-' || s[i] == '+')
    &&& (j == s.len() || s[j] == '.' || s[j] == '-' || s[j] == '+')
    &&& forall|k: int| 0 <= k < i ==> '0' as int <= #[trigger] s[k] as int <= '9' as int
    &&& forall|k: int| i < k < j ==> '0' as int <= #[trigger] s[k] as int <= '9' as int
    &&& decimal_value(s.subrange(0, i)) <= u32::MAX
    &&& decimal_value(s.subrange(i + 1, j)) <= u32::MAX
    &&& answer == (decimal_value(s.subrange(0, i)) > min.0 || (decimal_value(s.subrange(0, i))
        == min.0 && decimal_value(s.subrange(i + 1, j)) >= min.1))
}

/// A version is read only when it has the shape `major.minor[...]`: a
/// non-empty run of ASCII digits, then `.`, `-` or `+`, then another
/// non-empty run of ASCII digits that ends the text or is followed by `.`,
/// `-` or `+`; both numbers fit in 32 bits, and the answer is their
/// lexicographic comparison with `min`. Any other text gives `None`.
pub proof fn lemma_version_read_only_in_shape(s: Seq<char>, min: (u32, u32))
    ensures
        version_at_least_spec(s, min) matches Some(answer) ==> exists|i: int, j: int|
            #[trigger] version_shape(s, i, j, min, answer),
{
    if let Some(answer) = version_at_least_spec(s, min) {
        lemma_next_separator_bounds(s, 0);
        let i = next_separator(s, 0);
        lemma_next_separator_bounds(s, i + 1);
        let j = next_separator(s, i + 1);
        let a = s.subrange(0, i);
        let b = s.subrange(i + 1, j);
        assert(i < s.len());
        assert(parse_u32(a) is Some && parse_u32(b) is Some);
        lemma_decimal_value_nonneg(a);
        lemma_decimal_value_nonneg(b);
        assert forall|k: int| 0 <= k < i implies '0' as int <= #[trigger] s[k] as int <= '9' as int by {
            assert(a[k] == s[k]);
            assert(is_digit(a[k]));
        }
        assert forall|k: int| i < k < j implies '0' as int <= #[trigger] s[k] as int <= '9' as int by {
            assert(b[k - i - 1] == s[k]);
            assert(is_digit(b[k - i - 1]));
        }
        assert(answer == (decimal_value(a) > min.0 || (decimal_value(a) == min.0 && decimal_value(b)
            >= min.1)));
        assert(0 < i && i + 1 < j && j <= s.len());
        assert(version_shape(s, i, j, min, answer));
    }
}

/// The index of the first separator of `text` at or after `start`, or its
/// length in characters when there is none.
fn find_separator(text: &str, len: usize, start: usize) -> (end: usize)
    requires
        len == text@.len(),
        start <= len,
    ensures
        end == next_separator(text@, start as int),
        start <= end <= len,
{
    let mut i = start;
    while i < len
        invariant
            start <= i <= len,
            len == text@.len(),
            next_separator(text@, i as int) == next_separator(text@, start as int),
        decreases len - i,
    {
        let c = text.get_char(i);
        if c == '.' || c == '-' || c == '+' {
            return i;
        }
        i += 1;
    }
    i
}

/// Reads the characters `from..to` of `text` as a 32-bit unsigned number.
fn parse_field(text: &str, len: usize, from: usize, to: usize) -> (value: Option<u32>)
    requires
        len == text@.len(),
        from <= to <= len,
    ensures
        value == parse_u32(text@.subrange(from as int, to as int)),
{
    let ghost field = text@.subrange(from as int, to as int);
    if from == to {
        return None;
    }
    let mut value: u64 = 0;
    let mut k = from;
    while k < to
        invariant
            from <= k <= to <= len,
            len == text@.len(),
            field == text@.subrange(from as int, to as int),
            all_digits(text@.subrange(from as int, k as int)),
            value == decimal_value(text@.subrange(from as int, k as int)),
            value <= u32::MAX,
        decreases to - k,
    {
        let c = text.get_char(k);
        let code = c as u32;
        if code < '0' as u32 || code > '9' as u32 {
            assert(field[k - from] == c);
            return None;
        }
        value = value * 10 + (code - '0' as u32) as u64;
        assert(text@.subrange(from as int, k + 1).drop_last() =~= text@.subrange(from as int, k as int));
        k += 1;
        if value > u32::MAX as u64 {
            proof {
                if all_digits(field) {
                    assert(field.subrange(0, k - from) =~= text@.subrange(from as int, k as int));
                    lemma_decimal_value_prefix(field, k - from);
                }
            }
            return None;
        }
    }
    assert(text@.subrange(from as int, to as int) =~= field);
    Some(value as u32)
}

/// Parses "major.minor[...]" (e.g. "0.15.2", "0.16.0-dev.1+abc") and
/// compares `(major, minor)` with `min`.
pub fn version_at_least(version: &str, min: (u32, u32)) -> (at_least: Option<bool>)
    ensures
        at_least == version_at_least_spec(version@, min),
{
    let len = version.unicode_len();
    let first_end = find_separator(version, len, 0);
    let major = match parse_field(version, len, 0, first_end) {
        Some(m) => m,
        None => return None,
    };
    if first_end == len {
        return None;
    }
    let second_end = find_separator(version, len, first_end + 1);
    let minor = match parse_field(version, len, first_end + 1, second_end) {
        Some(m) => m,
        None => return None,
    };
    Some(major > min.0 || (major == min.0 && minor >= min.1))
}

/// The ASCII digit `d` as a one-character string.
fn digit_str(d: u32) -> (s: &'static str)
    requires
        d < 10,
    ensures
        s@ == seq![digit_char(d as int)],
{
    proof {
        reveal_strlit("0");
        reveal_strlit("1");
        reveal_strlit("2");
        reveal_strlit("3");
        reveal_strlit("4");
        reveal_strlit("5");
        reveal_strlit("6");
        reveal_strlit("7");
        reveal_strlit("8");
        reveal_strlit("9");
    }
    match d {
        0 => "0",
        1 => "1",
        2 => "2",
        3 => "3",
        4 => "4",
        5 => "5",
        6 => "6",
        7 => "7",
        8 => "8",
        _ => "9",
    }
}

/// The decimal text of `n`, as `n.to_string()` writes it.
pub fn decimal_string(n: u32) -> (text: String)
    ensures
        text@ == decimal_digits(n as nat),
    decreases n,
{
    if n < 10 {
        String::from_str(digit_str(n))
    } else {
        let head = decimal_string(n / 10);
        head.concat(digit_str(n % 10))
    }
}

} // verus!
