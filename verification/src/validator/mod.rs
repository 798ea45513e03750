//! The validator that the four code lengths share: what makes a code of a
//! given length valid, and how a damaged one is repaired.

use crate::utils::{
    all_digit_chars, byte_length, check_digit, compute_check_digit, digit_value, is_ascii_numeric,
    is_digit_char, lemma_byte_len_of_ascii, lemma_check_digit_ignores_last,
    lemma_check_digit_is_digit, zero_pad, zero_padded,
};
use vstd::prelude::*;
use vstd::string::*;
use vstd::utf8::*;

verus! {

/// The bytes of an ASCII text, one for each character.
pub open spec fn ascii_bytes(chars: Seq<char>) -> Seq<u8> {
    Seq::new(chars.len(), |i: int| chars[i] as u8)
}

/// Whether `chars` is a valid code of `length` places: ASCII only, exactly
/// `length` characters, each of them a decimal digit, and the last of them
/// the check digit of those before it. A code has at least its check digit,
/// so none is valid at length zero.
pub open spec fn valid_code(chars: Seq<char>, length: nat) -> bool {
    &&& is_ascii_chars(chars)
    &&& chars.len() == length
    &&& all_digit_chars(chars)
    &&& length >= 1
    &&& check_digit(ascii_bytes(chars), length as int) == digit_value(
        ascii_bytes(chars)[length - 1],
    )
}

/// Tells whether `code` is a valid code of `length` places. Any text may be
/// handed in: whatever fails to be a code is answered with `false`.
pub fn check_code(code: &str, length: usize) -> (ok: bool)
    ensures
        ok == valid_code(code@, length as nat),
{
    if byte_length(code) != length {
        proof {
            if is_ascii_chars(code@) {
                lemma_byte_len_of_ascii(code@);
            }
        }
        return false;
    }
    if length == 0 {
        return false;
    }
    if !is_ascii_numeric(code) {
        return false;
    }
    let bytes = code.as_bytes();
    proof {
        is_ascii_spec_bytes(code);
        assert(bytes@ =~= ascii_bytes(code@));
    }
    let digit: u8 = compute_check_digit(bytes, length);
    digit == bytes[length - 1] - 48
}

/// Whether `c` is ASCII whitespace: the space, or one of the control
/// characters from the horizontal tab to the carriage return (tab, line
/// feed, vertical tab, form feed, carriage return).
pub open spec fn is_whitespace_char(c: char) -> bool {
    c == ' ' || '\t' <= c <= '\r'
}

/// `chars` without the whitespace at its left end.
pub open spec fn trim_start(chars: Seq<char>) -> Seq<char>
    decreases chars.len(),
{
    if chars.len() > 0 && is_whitespace_char(chars[0]) {
        trim_start(chars.drop_first())
    } else {
        chars
    }
}

/// `chars` without the whitespace at its right end.
pub open spec fn trim_end(chars: Seq<char>) -> Seq<char>
    decreases chars.len(),
{
    if chars.len() > 0 && is_whitespace_char(chars.last()) {
        trim_end(chars.drop_last())
    } else {
        chars
    }
}

/// `chars` without the whitespace at either end. Whitespace between other
/// characters stays.
pub open spec fn trimmed(chars: Seq<char>) -> Seq<char> {
    trim_end(trim_start(chars))
}

/// Where the first `count` characters are whitespace and the next one is
/// not, `trim_start` removes exactly those.
pub proof fn lemma_trim_start_skips(chars: Seq<char>, count: int)
    requires
        0 <= count <= chars.len(),
        forall|i: int| 0 <= i < count ==> is_whitespace_char(#[trigger] chars[i]),
        count == chars.len() || !is_whitespace_char(chars[count]),
    ensures
        trim_start(chars) == chars.subrange(count, chars.len() as int),
    decreases count,
{
    if count == 0 {
        assert(chars.subrange(0, chars.len() as int) =~= chars);
    } else {
        let rest = chars.drop_first();
        assert forall|i: int| 0 <= i < count - 1 implies is_whitespace_char(
            #[trigger] rest[i],
        ) by {
            assert(rest[i] == chars[i + 1]);
        }
        lemma_trim_start_skips(rest, count - 1);
        assert(rest.subrange(count - 1, rest.len() as int) =~= chars.subrange(
            count,
            chars.len() as int,
        ));
    }
}

/// Where everything from `end` on is whitespace and the character before
/// `end` is not, `trim_end` keeps exactly the first `end` characters.
pub proof fn lemma_trim_end_keeps(chars: Seq<char>, end: int)
    requires
        0 <= end <= chars.len(),
        forall|i: int| end <= i < chars.len() ==> is_whitespace_char(#[trigger] chars[i]),
        end == 0 || !is_whitespace_char(chars[end - 1]),
    ensures
        trim_end(chars) == chars.subrange(0, end),
    decreases chars.len() - end,
{
    if end == chars.len() {
        assert(chars.subrange(0, end) =~= chars);
    } else {
        let rest = chars.drop_last();
        lemma_trim_end_keeps(rest, end);
        assert(rest.subrange(0, end) =~= chars.subrange(0, end));
    }
}

/// Whether `b` is the byte of an ASCII whitespace character.
fn is_whitespace_byte(b: u8) -> (space: bool)
    ensures
        space == (b == 32 || 9 <= b <= 13),
{
    b == 32 || (9 <= b && b <= 13)
}

/// Cuts the whitespace off both ends of an ASCII text.
fn trim(code: &str) -> (inner: &str)
    requires
        is_ascii_chars(code@),
    ensures
        inner@ == trimmed(code@),
        is_ascii_chars(inner@),
{
    let bytes = code.as_bytes();
    proof {
        is_ascii_spec_bytes(code);
    }
    let len: usize = bytes.len();
    let mut start: usize = 0;
    while start < len && is_whitespace_byte(bytes[start])
        invariant
            start <= len,
            len == bytes@.len(),
            len == code@.len(),
            is_ascii_chars(code@),
            forall|j: int| 0 <= j < len ==> bytes@[j] == #[trigger] code@[j] as u8,
            forall|j: int| 0 <= j < start ==> is_whitespace_char(#[trigger] code@[j]),
        decreases len - start,
    {
        assert(is_whitespace_char(code@[start as int]));
        start += 1;
    }
    let mut end: usize = len;
    while end > start && is_whitespace_byte(bytes[end - 1])
        invariant
            start <= end <= len,
            len == bytes@.len(),
            len == code@.len(),
            is_ascii_chars(code@),
            forall|j: int| 0 <= j < len ==> bytes@[j] == #[trigger] code@[j] as u8,
            forall|j: int| end <= j < len ==> is_whitespace_char(#[trigger] code@[j]),
        decreases end,
    {
        assert(is_whitespace_char(code@[end - 1]));
        end -= 1;
    }
    proof {
        let tail = code@.subrange(start as int, len as int);
        assert(start == len || !is_whitespace_char(code@[start as int]));
        lemma_trim_start_skips(code@, start as int);
        assert forall|j: int| end - start <= j < tail.len() implies is_whitespace_char(
            #[trigger] tail[j],
        ) by {
            assert(tail[j] == code@[j + start]);
        }
        if end > start {
            assert(tail[end - start - 1] == code@[end - 1]);
            assert(!is_whitespace_char(code@[end - 1]));
        }
        lemma_trim_end_keeps(tail, end - start);
        assert(tail.subrange(0, end - start) =~= code@.subrange(start as int, end as int));
    }
    code.substring_ascii(start, end)
}

/// Why a code cannot be repaired.
#[derive(Debug, Clone, Copy, PartialEq, Eq, Hash)]
pub enum FixFailure {
    /// The text holds a character outside ASCII.
    NonAsciiString,
    /// The text, its outer whitespace set aside, is longer than the code.
    TooLong,
    /// The text has the shape of the code, but its last digit is not the
    /// check digit of the others.
    CheckDigitIncorrect,
}

/// What repairing `chars` into a code of `length` places comes to. The gates
/// stand in this order: a character outside ASCII anywhere in the text; then
/// too many characters between the outer whitespace; then, once zeros have
/// filled the text up from the left, the test of the code itself.
pub open spec fn fix_outcome(chars: Seq<char>, length: nat) -> Result<Seq<char>, FixFailure> {
    if !is_ascii_chars(chars) {
        Err(FixFailure::NonAsciiString)
    } else if trimmed(chars).len() > length {
        Err(FixFailure::TooLong)
    } else if !valid_code(zero_padded(trimmed(chars), length), length) {
        Err(FixFailure::CheckDigitIncorrect)
    } else {
        Ok(zero_padded(trimmed(chars), length))
    }
}

/// Repairs `code` into a code of `length` places, where that takes no more
/// than dropping whitespace at its ends and adding zeros on the left, and
/// says why it cannot be done otherwise. Nothing is ever cut off, and
/// whitespace between the digits is left to fail the test.
pub fn fix_code(code: &str, length: usize) -> (outcome: Result<String, FixFailure>)
    ensures
        match fix_outcome(code@, length as nat) {
            Ok(fixed) => outcome is Ok && outcome->Ok_0@ == fixed,
            Err(failure) => outcome == Err::<String, FixFailure>(failure),
        },
{
    if !code.is_ascii() {
        return Err(FixFailure::NonAsciiString);
    }
    let inner = trim(code);
    proof {
        lemma_byte_len_of_ascii(inner@);
    }
    if byte_length(inner) > length {
        return Err(FixFailure::TooLong);
    }
    let fixed = zero_pad(inner.to_string(), length);
    if !check_code(fixed.as_str(), length) {
        return Err(FixFailure::CheckDigitIncorrect);
    }
    Ok(fixed)
}

/// The character that writes the digit `value`.
pub open spec fn digit_char(value: int) -> char {
    (value + 48) as u8 as char
}

/// Digits followed by their check digit make a valid code, at every
/// length: where all the characters of `chars` but the last are digits and
/// the last one writes the check digit computed for `chars`, `chars` is a
/// valid code.
pub proof fn lemma_check_digit_completes_code(chars: Seq<char>, length: nat)
    requires
        length >= 1,
        chars.len() == length,
        forall|i: int| 0 <= i < length - 1 ==> is_digit_char(#[trigger] chars[i]),
        chars[length - 1] == digit_char(check_digit(ascii_bytes(chars), length as int)),
    ensures
        valid_code(chars, length),
{
    lemma_check_digit_is_digit(ascii_bytes(chars), length as int);
    assert forall|i: int| 0 <= i < chars.len() implies is_digit_char(#[trigger] chars[i]) by {
        if i == length - 1 {
            assert(is_digit_char(digit_char(check_digit(ascii_bytes(chars), length as int))));
        }
    }
}

/// The check digit is sensitive to the last place: a valid code with any
/// other digit written in its last place is not valid.
pub proof fn lemma_other_last_digit_is_invalid(chars: Seq<char>, length: nat, other: char)
    requires
        valid_code(chars, length),
        is_digit_char(other),
        other != chars[length - 1],
    ensures
        !valid_code(chars.update(length - 1, other), length),
{
    let changed = chars.update(length - 1, other);
    assert forall|i: int| 0 <= i < length - 1 implies ascii_bytes(chars)[i] == ascii_bytes(
        changed,
    )[i] by {
        assert(changed[i] == chars[i]);
    }
    lemma_check_digit_ignores_last(ascii_bytes(chars), ascii_bytes(changed), length as int);
    assert(is_digit_char(chars[length - 1]));
    assert(ascii_bytes(changed)[length - 1] != ascii_bytes(chars)[length - 1]);
}

/// Whatever a repair hands back is a valid code.
pub proof fn lemma_fixed_code_is_valid(chars: Seq<char>, length: nat)
    requires
        fix_outcome(chars, length) is Ok,
    ensures
        valid_code(fix_outcome(chars, length)->Ok_0, length),
{
}

} // verus!
