//! The status line of an HTTP response: words separated by white space, the
//! second of which is the status code in decimal.

use crate::text::chars_of;
use vstd::prelude::*;

verus! {

/// Why a status line gave no status code.
#[derive(Clone, Copy, Debug, PartialEq, Eq)]
pub enum StatusLineError {
    /// The line holds no word at all.
    MissingVersion,
    /// The line ends after the protocol version.
    MissingCode,
    /// The second word is not an unsigned decimal number of sixteen bits.
    InvalidCode,
}

/// White space in the sense of Unicode: the characters with the property
/// `White_Space`.
pub open spec fn is_white_space(c: char) -> bool {
    let code = c as u32;
    ||| 0x09 <= code <= 0x0D
    ||| code == 0x20
    ||| code == 0x85
    ||| code == 0xA0
    ||| code == 0x1680
    ||| 0x2000 <= code <= 0x200A
    ||| code == 0x2028
    ||| code == 0x2029
    ||| code == 0x202F
    ||| code == 0x205F
    ||| code == 0x3000
}

/// The first position at or after `from` that holds no white space; the
/// length of `text` where there is none.
pub open spec fn skip_white_space(text: Seq<char>, from: int) -> int
    decreases text.len() - from,
{
    if from >= text.len() {
        text.len() as int
    } else if is_white_space(text[from]) {
        skip_white_space(text, from + 1)
    } else {
        from
    }
}

/// The first position at or after `from` that holds white space; the length
/// of `text` where there is none.
pub open spec fn skip_word(text: Seq<char>, from: int) -> int
    decreases text.len() - from,
{
    if from >= text.len() {
        text.len() as int
    } else if is_white_space(text[from]) {
        from
    } else {
        skip_word(text, from + 1)
    }
}

/// Where the first word at or after `from` starts and ends, if there is one.
pub open spec fn next_word(text: Seq<char>, from: int) -> Option<(int, int)> {
    let start = skip_white_space(text, from);
    if start >= text.len() {
        None
    } else {
        Some((start, skip_word(text, start)))
    }
}

/// The value of a decimal digit; `None` for any other character.
pub open spec fn digit_value(c: char) -> Option<nat> {
    if '0' <= c <= '9' {
        Some((c as u32 - '0' as u32) as nat)
    } else {
        None
    }
}

/// Whether `text` consists of decimal digits only.
pub open spec fn all_digits(text: Seq<char>) -> bool {
    forall|i: int| 0 <= i < text.len() ==> (#[trigger] digit_value(text[i])) is Some
}

/// The number that a sequence of decimal digits stands for.
pub open spec fn digits_value(digits: Seq<char>) -> nat
    decreases digits.len(),
{
    if digits.len() == 0 {
        0
    } else {
        digits_value(digits.drop_last()) * 10 + digit_value(digits.last()).unwrap()
    }
}

/// The unsigned sixteen-bit number that `text` stands for: an optional plus
/// sign, then at least one decimal digit and nothing else, with a value of
/// no more than 65535.
pub open spec fn parse_u16(text: Seq<char>) -> Option<u16> {
    let digits = if text.len() > 0 && text[0] == '+' {
        text.skip(1)
    } else {
        text
    };
    if digits.len() > 0 && all_digits(digits) && digits_value(digits) <= u16::MAX {
        Some(digits_value(digits) as u16)
    } else {
        None
    }
}

/// The status code of a status line: its second word, read as a number.
pub open spec fn status_code_of(line: Seq<char>) -> Result<u16, StatusLineError> {
    match next_word(line, 0) {
        None => Err(StatusLineError::MissingVersion),
        Some((_, version_end)) => match next_word(line, version_end) {
            None => Err(StatusLineError::MissingCode),
            Some((start, end)) => match parse_u16(line.subrange(start, end)) {
                Some(code) => Ok(code),
                None => Err(StatusLineError::InvalidCode),
            },
        },
    }
}

/// A word ends no earlier than it starts, and within the text.
pub proof fn lemma_skip_bounds(text: Seq<char>, from: int)
    requires
        0 <= from <= text.len(),
    ensures
        from <= skip_white_space(text, from) <= text.len(),
        from <= skip_word(text, from) <= text.len(),
        skip_white_space(text, from) < text.len() ==> skip_word(
            text,
            skip_white_space(text, from),
        ) > skip_white_space(text, from),
    decreases text.len() - from,
{
    if from < text.len() {
        lemma_skip_bounds(text, from + 1);
    }
}

/// A word is a longest run of characters that are not white space: only
/// white space lies between `from` and its start, none lies within it, and
/// it ends at white space or at the end of the text.
pub proof fn lemma_next_word_is_maximal(text: Seq<char>, from: int)
    requires
        0 <= from <= text.len(),
    ensures
        match next_word(text, from) {
            Some((start, end)) => {
                &&& from <= start < end <= text.len()
                &&& forall|i: int| from <= i < start ==> is_white_space(#[trigger] text[i])
                &&& forall|i: int| start <= i < end ==> !is_white_space(#[trigger] text[i])
                &&& end < text.len() ==> is_white_space(text[end])
            },
            None => forall|i: int| from <= i < text.len() ==> is_white_space(#[trigger] text[i]),
        },
{
    lemma_skip_bounds(text, from);
    lemma_skip_white_space_skips_only_that(text, from);
    let start = skip_white_space(text, from);
    if start < text.len() {
        lemma_skip_bounds(text, start);
        lemma_skip_word_skips_none(text, start);
    }
}

/// Between `from` and where `skip_white_space` stops lies only white space,
/// and it stops at a character that is none, or at the end.
proof fn lemma_skip_white_space_skips_only_that(text: Seq<char>, from: int)
    requires
        0 <= from <= text.len(),
    ensures
        forall|i: int|
            from <= i < skip_white_space(text, from) ==> is_white_space(#[trigger] text[i]),
        skip_white_space(text, from) < text.len() ==> !is_white_space(
            text[skip_white_space(text, from)],
        ),
    decreases text.len() - from,
{
    if from < text.len() && is_white_space(text[from]) {
        lemma_skip_white_space_skips_only_that(text, from + 1);
    }
}

/// Between `from` and where `skip_word` stops lies no white space, and it
/// stops at white space, or at the end.
proof fn lemma_skip_word_skips_none(text: Seq<char>, from: int)
    requires
        0 <= from <= text.len(),
    ensures
        forall|i: int| from <= i < skip_word(text, from) ==> !is_white_space(#[trigger] text[i]),
        skip_word(text, from) < text.len() ==> is_white_space(text[skip_word(text, from)]),
    decreases text.len() - from,
{
    if from < text.len() && !is_white_space(text[from]) {
        lemma_skip_word_skips_none(text, from + 1);
    }
}

/// The value of digits never falls when more digits follow.
pub proof fn lemma_digits_value_grows(digits: Seq<char>, k: int)
    requires
        0 <= k <= digits.len(),
    ensures
        digits_value(digits.take(k)) <= digits_value(digits),
    decreases digits.len() - k,
{
    if k == digits.len() {
        assert(digits.take(k) =~= digits);
    } else {
        lemma_digits_value_grows(digits.drop_last(), k);
        assert(digits.drop_last().take(k) =~= digits.take(k));
    }
}

/// Whether `c` is white space.
pub fn is_whitespace(c: char) -> (white: bool)
    ensures
        white == is_white_space(c),
{
    let code: u32 = c as u32;
    (0x09 <= code && code <= 0x0D) || code == 0x20 || code == 0x85 || code == 0xA0 || code
        == 0x1680 || (0x2000 <= code && code <= 0x200A) || code == 0x2028 || code == 0x2029 || code
        == 0x202F || code == 0x205F || code == 0x3000
}

/// The first position at or after `from` that holds no white space.
fn scan_white_space(chars: &Vec<char>, from: usize) -> (at: usize)
    requires
        from <= chars.len(),
    ensures
        at == skip_white_space(chars@, from as int),
        from <= at <= chars.len(),
{
    let mut at = from;
    while at < chars.len() && is_whitespace(chars[at])
        invariant
            from <= at <= chars.len(),
            skip_white_space(chars@, from as int) == skip_white_space(chars@, at as int),
        decreases chars.len() - at,
    {
        at += 1;
    }
    at
}

/// The first position at or after `from` that holds white space.
fn scan_word(chars: &Vec<char>, from: usize) -> (at: usize)
    requires
        from <= chars.len(),
    ensures
        at == skip_word(chars@, from as int),
        from <= at <= chars.len(),
{
    let mut at = from;
    while at < chars.len() && !is_whitespace(chars[at])
        invariant
            from <= at <= chars.len(),
            skip_word(chars@, from as int) == skip_word(chars@, at as int),
        decreases chars.len() - at,
    {
        at += 1;
    }
    at
}

/// Reads the characters from `start` up to `end` as an unsigned number of
/// sixteen bits.
fn read_u16(chars: &Vec<char>, start: usize, end: usize) -> (number: Option<u16>)
    requires
        start < end <= chars.len(),
    ensures
        number == parse_u16(chars@.subrange(start as int, end as int)),
{
    let ghost text = chars@.subrange(start as int, end as int);
    let first = if chars[start] == '+' {
        start + 1
    } else {
        start
    };
    let ghost digits = chars@.subrange(first as int, end as int);
    proof {
        assert(text[0] == chars@[start as int]);
        if chars@[start as int] == '+' {
            assert(digits =~= text.skip(1));
        } else {
            assert(digits =~= text);
        }
    }
    if first == end {
        return None;
    }
    let mut value: u32 = 0;
    let mut at = first;
    while at < end
        invariant
            start < end,
            first <= at <= end <= chars.len(),
            text == chars@.subrange(start as int, end as int),
            digits == chars@.subrange(first as int, end as int),
            digits == if text.len() > 0 && text[0] == '+' {
                text.skip(1)
            } else {
                text
            },
            all_digits(digits.take(at - first)),
            value == digits_value(digits.take(at - first)),
            value <= u16::MAX,
        decreases end - at,
    {
        let c = chars[at];
        let ghost shorter = digits.take(at - first);
        let ghost longer = digits.take(at - first + 1);
        proof {
            assert(digits[at - first] == c);
            assert(longer.drop_last() =~= shorter);
            assert(longer.last() == c);
        }
        if c < '0' || c > '9' {
            proof {
                assert(digit_value(digits[at - first]) is None);
            }
            return None;
        }
        let digit: u32 = c as u32 - '0' as u32;
        let next: u32 = value * 10 + digit;
        proof {
            assert(digit_value(c) == Some(digit as nat));
            assert(digits_value(longer) == next);
            assert forall|i: int| 0 <= i < longer.len() implies (#[trigger] digit_value(
                longer[i],
            )) is Some by {
                if i < shorter.len() {
                    assert(longer[i] == shorter[i]);
                }
            }
        }
        if next > u16::MAX as u32 {
            proof {
                lemma_digits_value_grows(digits, at - first + 1);
            }
            return None;
        }
        value = next;
        at += 1;
    }
    proof {
        assert(digits.take(at - first) =~= digits);
    }
    Some(value as u16)
}

/// Reads the status code out of a status line such as `HTTP/1.1 200 OK`.
pub fn parse_status_code(status_line: &str) -> (code: Result<u16, StatusLineError>)
    ensures
        code == status_code_of(status_line@),
{
    let chars = chars_of(status_line);
    let version_start = scan_white_space(&chars, 0);
    if version_start >= chars.len() {
        return Err(StatusLineError::MissingVersion);
    }
    let version_end = scan_word(&chars, version_start);
    let start = scan_white_space(&chars, version_end);
    if start >= chars.len() {
        return Err(StatusLineError::MissingCode);
    }
    let end = scan_word(&chars, start);
    proof {
        lemma_skip_bounds(chars@, version_end as int);
    }
    match read_u16(&chars, start, end) {
        Some(code) => Ok(code),
        None => Err(StatusLineError::InvalidCode),
    }
}

} // verus!
