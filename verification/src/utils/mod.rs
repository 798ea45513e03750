//! The checksum engine: the weighted modulo-10 check digit, the test for
//! ASCII decimal digits and left padding with zeros.

use vstd::prelude::*;
use vstd::string::*;
use vstd::utf8::*;

verus! {

/// Whether `b` is one of the bytes `b'0'` to `b'9'`.
pub open spec fn is_digit_byte(b: u8) -> bool {
    48 <= b <= 57
}

/// The number that a digit byte stands for.
pub open spec fn digit_value(b: u8) -> int {
    b as int - 48
}

/// The weight of the digit that stands `distance` places to the left of the
/// check digit: 3 at the odd distances, 1 at the even ones.
pub open spec fn weight(distance: int) -> int {
    if distance % 2 == 1 {
        3
    } else {
        1
    }
}

/// The weight of the digit that stands `distance` places to the left of the
/// check digit.
pub fn weight_of(distance: usize) -> (w: u8)
    ensures
        w as int == weight(distance as int),
{
    if distance % 2 == 1 {
        3
    } else {
        1
    }
}

/// The weighted sum of the `reach` digits nearest to the check digit of a
/// code of `length` places, the check digit itself left out.
pub open spec fn weighted_sum(bytes: Seq<u8>, length: int, reach: int) -> int
    decreases reach,
{
    if reach <= 0 {
        0
    } else {
        weighted_sum(bytes, length, reach - 1) + weight(reach) * digit_value(
            bytes[length - 1 - reach],
        )
    }
}

/// The digit that brings `sum` up to the next multiple of ten.
pub open spec fn complement(sum: int) -> int {
    (10 - sum % 10) % 10
}

/// The check digit of a code of `length` places: the complement of the
/// weighted sum of all the places before the last. What stands in the last
/// place plays no part.
pub open spec fn check_digit(bytes: Seq<u8>, length: int) -> int {
    complement(weighted_sum(bytes, length, length - 1))
}

/// The check digit that belongs to a weighted sum, or to its remainder
/// modulo ten.
pub fn check_digit_for_sum(sum: u8) -> (digit: u8)
    ensures
        digit as int == complement(sum as int),
        digit <= 9,
{
    let remainder: u8 = sum % 10;
    if remainder > 0 {
        10 - remainder
    } else {
        remainder
    }
}

/// Computes the check digit of the code that fills the first `length` bytes
/// of `bytes`, from the `length - 1` digits in front of the last place.
///
/// Every byte that is read must be an ASCII digit; the last place is not
/// read. The running sum is kept modulo ten, so no length is too great.
pub fn compute_check_digit(bytes: &[u8], length: usize) -> (digit: u8)
    requires
        length <= bytes@.len(),
        forall|i: int| 0 <= i < length - 1 ==> is_digit_byte(#[trigger] bytes@[i]),
    ensures
        digit as int == check_digit(bytes@, length as int),
        digit <= 9,
{
    if length == 0 {
        return 0;
    }
    let mut remainder: u8 = 0;
    let mut reach: usize = 0;
    while reach < length - 1
        invariant
            1 <= length <= bytes@.len(),
            reach <= length - 1,
            remainder < 10,
            remainder as int == weighted_sum(bytes@, length as int, reach as int) % 10,
            forall|i: int| 0 <= i < length - 1 ==> is_digit_byte(#[trigger] bytes@[i]),
        decreases length - 1 - reach,
    {
        reach += 1;
        let value: u8 = bytes[length - 1 - reach] - 48;
        let weighted: u8 = weight_of(reach) * value;
        remainder = (remainder + weighted) % 10;
    }
    check_digit_for_sum(remainder)
}

/// Whether `c` is one of the characters `'0'` to `'9'`.
pub open spec fn is_digit_char(c: char) -> bool {
    '0' <= c <= '9'
}

/// Whether every character of `chars` is an ASCII decimal digit. The empty
/// sequence has no character that is not one.
pub open spec fn all_digit_chars(chars: Seq<char>) -> bool {
    forall|i: int| 0 <= i < chars.len() ==> is_digit_char(#[trigger] chars[i])
}

/// Tells whether `s` is made of ASCII decimal digits only. The empty string
/// is.
pub fn is_ascii_numeric(s: &str) -> (numeric: bool)
    ensures
        numeric == all_digit_chars(s@),
{
    if !s.is_ascii() {
        return false;
    }
    let bytes = s.as_bytes();
    proof {
        is_ascii_spec_bytes(s);
    }
    let mut i: usize = 0;
    while i < bytes.len()
        invariant
            i <= bytes@.len(),
            bytes@.len() == s@.len(),
            is_ascii_chars(s@),
            forall|j: int| 0 <= j < bytes@.len() ==> bytes@[j] == #[trigger] s@[j] as u8,
            forall|j: int| 0 <= j < i ==> is_digit_char(#[trigger] s@[j]),
        decreases bytes@.len() - i,
    {
        let b: u8 = bytes[i];
        if b < 48 || b > 57 {
            assert(!is_digit_char(s@[i as int]));
            return false;
        }
        i += 1;
    }
    true
}

/// `count` times the character `'0'`.
pub open spec fn zeros(count: nat) -> Seq<char> {
    Seq::new(count, |i: int| '0')
}

/// The length of `chars` in bytes of UTF-8. For ASCII text it is the number
/// of characters.
pub open spec fn byte_len(chars: Seq<char>) -> nat {
    encode_utf8(chars).len()
}

/// The length of `s` in bytes.
pub fn byte_length(s: &str) -> (len: usize)
    ensures
        len == byte_len(s@),
{
    s.as_bytes().len()
}

/// `chars` with zeros put in front until it is `size` bytes long; `chars`
/// itself where it is that long already, or longer.
pub open spec fn zero_padded(chars: Seq<char>, size: nat) -> Seq<char> {
    if byte_len(chars) >= size {
        chars
    } else {
        zeros((size - byte_len(chars)) as nat) + chars
    }
}

/// Adds zeros to the left of `upc` until it is `size` bytes long. A string
/// that is that long already, or longer, comes back as it is: nothing is
/// ever cut off.
pub fn zero_pad(upc: String, size: usize) -> (padded: String)
    ensures
        padded@ == zero_padded(upc@, size as nat),
{
    let len: usize = byte_length(upc.as_str());
    if len >= size {
        return upc;
    }
    let mut padded = String::new();
    let mut count: usize = 0;
    while count < size - len
        invariant
            len < size,
            count <= size - len,
            padded@ == zeros(count as nat),
        decreases size - len - count,
    {
        proof {
            reveal_strlit("0");
        }
        padded.append("0");
        count += 1;
        assert(padded@ =~= zeros(count as nat));
    }
    padded.append(upc.as_str());
    padded
}

/// The check digit is a decimal digit, whatever the bytes.
pub proof fn lemma_check_digit_is_digit(bytes: Seq<u8>, length: int)
    ensures
        0 <= check_digit(bytes, length) <= 9,
{
}

/// The weighted sum reads only the places that it reaches: two sequences
/// that agree on them have the same sum.
pub proof fn lemma_weighted_sum_reads_reach(a: Seq<u8>, b: Seq<u8>, length: int, reach: int)
    requires
        forall|i: int| length - 1 - reach <= i < length - 1 ==> a[i] == b[i],
    ensures
        weighted_sum(a, length, reach) == weighted_sum(b, length, reach),
    decreases reach,
{
    if reach > 0 {
        lemma_weighted_sum_reads_reach(a, b, length, reach - 1);
    }
}

/// The check digit of a code does not depend on what stands in its last
/// place, nor on anything behind it.
pub proof fn lemma_check_digit_ignores_last(a: Seq<u8>, b: Seq<u8>, length: int)
    requires
        forall|i: int| 0 <= i < length - 1 ==> a[i] == b[i],
    ensures
        check_digit(a, length) == check_digit(b, length),
{
    lemma_weighted_sum_reads_reach(a, b, length, length - 1);
}

/// ASCII text is as many bytes long as it has characters.
pub proof fn lemma_byte_len_of_ascii(chars: Seq<char>)
    requires
        is_ascii_chars(chars),
    ensures
        byte_len(chars) == chars.len(),
{
    is_ascii_chars_encode_utf8(chars);
}

/// Each zero put in front adds one byte.
pub proof fn lemma_byte_len_of_zeros_in_front(count: nat, chars: Seq<char>)
    ensures
        byte_len(zeros(count) + chars) == count + byte_len(chars),
    decreases count,
{
    if count == 0 {
        assert(zeros(0) + chars =~= chars);
    } else {
        let whole = zeros(count) + chars;
        assert(whole[0] == '0');
        assert(whole.drop_first() =~= zeros((count - 1) as nat) + chars);
        lemma_byte_len_of_zeros_in_front((count - 1) as nat, chars);
        assert(encode_scalar('0' as u32).len() == 1);
    }
}

/// Padded text is never shorter than asked for.
pub proof fn lemma_zero_padded_is_long_enough(chars: Seq<char>, size: nat)
    ensures
        byte_len(zero_padded(chars, size)) >= size,
        byte_len(chars) <= size ==> byte_len(zero_padded(chars, size)) == size,
{
    if byte_len(chars) < size {
        lemma_byte_len_of_zeros_in_front((size - byte_len(chars)) as nat, chars);
    }
}

/// Padding is idempotent: padding what is padded already changes nothing.
pub proof fn lemma_zero_pad_idempotent(chars: Seq<char>, size: nat)
    ensures
        zero_padded(zero_padded(chars, size), size) == zero_padded(chars, size),
{
    lemma_zero_padded_is_long_enough(chars, size);
}

} // verus!
