//! Reading a list index out of a line of text.

use vstd::prelude::*;
use vstd::string::StrSliceExecFns;

verus! {

/// Whether a character is white space: the Unicode characters with the
/// property `White_Space`.
pub open spec fn is_space(c: char) -> bool {
    let code = c as u32;
    ||| 0x09 <= code <= 0x0d
    ||| code == 0x20
    ||| code == 0x85
    ||| code == 0xa0
    ||| code == 0x1680
    ||| 0x2000 <= code <= 0x200a
    ||| code == 0x2028
    ||| code == 0x2029
    ||| code == 0x202f
    ||| code == 0x205f
    ||| code == 0x3000
}

/// Whether a character is one of the ten decimal digits.
pub open spec fn is_digit(c: char) -> bool {
    0x30 <= c as u32 <= 0x39
}

/// The value of a decimal digit; zero for any other character.
pub open spec fn digit_value(c: char) -> nat {
    if is_digit(c) {
        (c as u32 - 0x30) as nat
    } else {
        0
    }
}

/// Number of white-space characters at the front of `s`.
pub open spec fn leading_spaces(s: Seq<char>) -> nat
    decreases s.len(),
{
    if s.len() > 0 && is_space(s[0]) {
        1 + leading_spaces(s.subrange(1, s.len() as int))
    } else {
        0
    }
}

/// Number of white-space characters at the back of `s`.
pub open spec fn trailing_spaces(s: Seq<char>) -> nat
    decreases s.len(),
{
    if s.len() > 0 && is_space(s.last()) {
        1 + trailing_spaces(s.drop_last())
    } else {
        0
    }
}

/// `s` without the white space at its front and at its back.
pub open spec fn trimmed(s: Seq<char>) -> Seq<char> {
    let front = leading_spaces(s) as int;
    let rest = s.subrange(front, s.len() as int);
    rest.subrange(0, rest.len() - trailing_spaces(rest))
}

/// `s` without a plus sign at its front.
pub open spec fn unsigned_part(s: Seq<char>) -> Seq<char> {
    if s.len() > 0 && s[0] == '+' {
        s.subrange(1, s.len() as int)
    } else {
        s
    }
}

/// Whether `s` holds decimal digits and nothing else.
pub open spec fn all_digits(s: Seq<char>) -> bool {
    forall|i: int| 0 <= i < s.len() ==> is_digit(#[trigger] s[i])
}

/// The number that a run of decimal digits writes.
pub open spec fn decimal_value(s: Seq<char>) -> nat
    decreases s.len(),
{
    if s.len() == 0 {
        0
    } else {
        10 * decimal_value(s.drop_last()) + digit_value(s.last())
    }
}

/// The index that a line of text names, if it names one: white space around
/// it is dropped, one plus sign may stand in front, and what is left must be
/// one or more decimal digits whose value fits the machine's word.
pub open spec fn index_of_text(s: Seq<char>) -> Option<usize> {
    let digits = unsigned_part(trimmed(s));
    if digits.len() > 0 && all_digits(digits) && decimal_value(digits) <= usize::MAX {
        Some(decimal_value(digits) as usize)
    } else {
        None
    }
}

/// Whether a character is white space.
pub fn is_whitespace(c: char) -> (b: bool)
    ensures
        b == is_space(c),
{
    let code: u32 = c as u32;
    (0x09 <= code && code <= 0x0d) || code == 0x20 || code == 0x85 || code == 0xa0 || code
        == 0x1680 || (0x2000 <= code && code <= 0x200a) || code == 0x2028 || code == 0x2029
        || code == 0x202f || code == 0x205f || code == 0x3000
}

/// Whether a character is a decimal digit.
pub fn is_decimal_digit(c: char) -> (b: bool)
    ensures
        b == is_digit(c),
{
    let code: u32 = c as u32;
    0x30 <= code && code <= 0x39
}

/// A longer run of digits writes a number that is no smaller than the one its
/// front writes.
pub proof fn lemma_value_grows(s: Seq<char>, k: int)
    requires
        0 <= k <= s.len(),
    ensures
        decimal_value(s.subrange(0, k)) <= decimal_value(s),
    decreases s.len(),
{
    if k == s.len() {
        assert(s.subrange(0, k) =~= s);
    } else {
        lemma_value_grows(s.drop_last(), k);
        assert(s.drop_last().subrange(0, k) =~= s.subrange(0, k));
    }
}

/// Counting the white space at the front can start one character in, once the
/// first character is known to be white space.
proof fn lemma_leading_step(s: Seq<char>, from: int)
    requires
        0 <= from < s.len(),
        is_space(s[from]),
    ensures
        leading_spaces(s.subrange(from, s.len() as int)) == 1 + leading_spaces(
            s.subrange(from + 1, s.len() as int),
        ),
{
    let rest = s.subrange(from, s.len() as int);
    assert(rest[0] == s[from]);
    assert(rest.subrange(1, rest.len() as int) =~= s.subrange(from + 1, s.len() as int));
}

/// Counting the white space at the back can stop one character early, once
/// the last character is known to be white space.
proof fn lemma_trailing_step(s: Seq<char>, from: int, to: int)
    requires
        0 <= from < to <= s.len(),
        is_space(s[to - 1]),
    ensures
        trailing_spaces(s.subrange(from, to)) == 1 + trailing_spaces(s.subrange(from, to - 1)),
{
    let part = s.subrange(from, to);
    assert(part.last() == s[to - 1]);
    assert(part.drop_last() =~= s.subrange(from, to - 1));
}

/// Finds where the text starts and ends once the white space around it is
/// dropped, counted in characters.
pub fn trim_bounds(text: &str) -> (bounds: (usize, usize))
    ensures
        bounds.0 <= bounds.1 <= text@.len(),
        text@.subrange(bounds.0 as int, bounds.1 as int) == trimmed(text@),
        bounds.0 == leading_spaces(text@),
{
    let len: usize = text.unicode_len();
    let mut start: usize = 0;
    assert(text@.subrange(0, len as int) =~= text@);
    loop
        invariant
            start <= len == text@.len(),
            leading_spaces(text@) == start + leading_spaces(
                text@.subrange(start as int, len as int),
            ),
        ensures
            start == len || !is_space(text@[start as int]),
        decreases len - start,
    {
        if start == len {
            break ;
        }
        if !is_whitespace(text.get_char(start)) {
            break ;
        }
        proof {
            lemma_leading_step(text@, start as int);
        }
        start += 1;
    }
    assert(leading_spaces(text@) == start) by {
        let rest = text@.subrange(start as int, len as int);
        if start < len {
            assert(rest[0] == text@[start as int]);
        }
    }
    let ghost rest = text@.subrange(start as int, len as int);
    let mut end: usize = len;
    loop
        invariant
            start <= end <= len == text@.len(),
            rest == text@.subrange(start as int, len as int),
            trailing_spaces(rest) == (len - end) + trailing_spaces(
                text@.subrange(start as int, end as int),
            ),
        ensures
            end == start || !is_space(text@[end - 1]),
        decreases end - start,
    {
        if end == start {
            break ;
        }
        if !is_whitespace(text.get_char(end - 1)) {
            break ;
        }
        proof {
            lemma_trailing_step(text@, start as int, end as int);
        }
        end -= 1;
    }
    proof {
        let part = text@.subrange(start as int, end as int);
        if start < end {
            assert(part.last() == text@[end - 1]);
        }
        assert(trailing_spaces(part) == 0);
        assert(rest.subrange(0, rest.len() - trailing_spaces(rest)) =~= part);
    }
    (start, end)
}

/// Reads the index that a line of text names, as a person would type it:
/// white space around it is ignored and a plus sign may stand in front.
/// Returns `None` where the text names no index that fits the machine's word.
pub fn parse_index(text: &str) -> (index: Option<usize>)
    ensures
        index == index_of_text(text@),
{
    let (start, end) = trim_bounds(text);
    let mut pos: usize = start;
    if start < end && text.get_char(start) == '+' {
        pos = start + 1;
    }
    let ghost body = trimmed(text@);
    let ghost digits = text@.subrange(pos as int, end as int);
    proof {
        if start < end {
            assert(body[0] == text@[start as int]);
        }
        assert(unsigned_part(body) =~= digits);
    }
    if pos == end {
        return None;
    }
    let mut value: usize = 0;
    let mut i: usize = pos;
    while i < end
        invariant
            pos <= i <= end <= text@.len(),
            digits == text@.subrange(pos as int, end as int),
            digits == unsigned_part(trimmed(text@)),
            all_digits(digits.subrange(0, i - pos)),
            value == decimal_value(digits.subrange(0, i - pos)),
        decreases end - i,
    {
        let c: char = text.get_char(i);
        let ghost front = digits.subrange(0, i - pos);
        let ghost next = digits.subrange(0, i - pos + 1);
        proof {
            assert(digits[i - pos] == c);
            assert(next.last() == c);
            assert(next.drop_last() =~= front);
            lemma_value_grows(digits, i - pos + 1);
        }
        if !is_decimal_digit(c) {
            assert(!is_digit(digits[i - pos]));
            return None;
        }
        let digit: usize = (c as u32 - 0x30) as usize;
        assert(decimal_value(next) == 10 * value + digit);
        assert(all_digits(next)) by {
            assert forall|j: int| 0 <= j < next.len() implies is_digit(#[trigger] next[j]) by {
                if j < front.len() {
                    assert(next[j] == front[j]);
                }
            }
        }
        let shifted: usize = match value.checked_mul(10) {
            Some(v) => v,
            None => { return None; },
        };
        value = match shifted.checked_add(digit) {
            Some(v) => v,
            None => { return None; },
        };
        i += 1;
    }
    proof {
        assert(digits.subrange(0, i - pos) =~= digits);
    }
    Some(value)
}

} // verus!
