use gtin_validate::utils::{
    byte_length, check_digit_for_sum, compute_check_digit, is_ascii_numeric, weight_of, zero_pad,
};

#[test]
fn compute_check_digit_static_data() {
    assert_eq!(compute_check_digit("000000000000".as_bytes(), 12), 0);
    assert_eq!(compute_check_digit("123456789012".as_bytes(), 12), 2);
    assert_eq!(compute_check_digit("123456789081".as_bytes(), 12), 1);
    assert_eq!(compute_check_digit("036000291452".as_bytes(), 12), 2);
    assert_eq!(compute_check_digit("999999999993".as_bytes(), 12), 3);
    assert_eq!(compute_check_digit("0000000000000".as_bytes(), 13), 0);
    assert_eq!(compute_check_digit("1234123412344".as_bytes(), 13), 4);
    assert_eq!(compute_check_digit("9249874313545".as_bytes(), 13), 5);
    assert_eq!(compute_check_digit("00000000000000".as_bytes(), 14), 0);
    assert_eq!(compute_check_digit("01010101010104".as_bytes(), 14), 4);
    assert_eq!(compute_check_digit("92498743135447".as_bytes(), 14), 7);
}

#[test]
fn zero_pad_static_data() {
    assert_eq!(zero_pad("hello".to_string(), 6), "0hello".to_string());
    assert_eq!(zero_pad("".to_string(), 0), "".to_string());
}

#[test]
fn zero_pad_string_longer_than_desired_length() {
    assert_eq!(zero_pad("hello".to_string(), 3), "hello".to_string());
    assert_eq!(zero_pad("hello".to_string(), 0), "hello".to_string());
}

#[test]
fn is_ascii_numeric_valid_numbers() {
    assert_eq!(is_ascii_numeric("0"), true);
    assert_eq!(is_ascii_numeric("1"), true);
    assert_eq!(is_ascii_numeric("00"), true);
    assert_eq!(is_ascii_numeric("99"), true);
}

#[test]
fn is_ascii_numeric_invalid_numbers() {
    assert_eq!(is_ascii_numeric("a"), false);
    assert_eq!(is_ascii_numeric("0a"), false);
    assert_eq!(is_ascii_numeric("-1"), false);
    assert_eq!(is_ascii_numeric("4.2"), false);
}

#[test]
fn is_ascii_numeric_accepts_the_empty_string() {
    assert_eq!(is_ascii_numeric(""), true);
}

#[test]
fn is_ascii_numeric_rejects_neighbours_of_the_digits() {
    assert_eq!(is_ascii_numeric("/"), false);
    assert_eq!(is_ascii_numeric(":"), false);
    assert_eq!(is_ascii_numeric("0123456789"), true);
    assert_eq!(is_ascii_numeric("12 34"), false);
    assert_eq!(is_ascii_numeric(" 1234"), false);
}

#[test]
fn is_ascii_numeric_rejects_digits_outside_ascii() {
    assert_eq!(is_ascii_numeric("\u{0663}"), false);
    assert_eq!(is_ascii_numeric("12\u{ff13}4"), false);
    assert_eq!(is_ascii_numeric("1234\u{2764}"), false);
}

#[test]
fn check_digit_for_sum_is_the_complement_to_ten() {
    assert_eq!(check_digit_for_sum(0), 0);
    assert_eq!(check_digit_for_sum(1), 9);
    assert_eq!(check_digit_for_sum(7), 3);
    assert_eq!(check_digit_for_sum(9), 1);
    assert_eq!(check_digit_for_sum(10), 0);
    assert_eq!(check_digit_for_sum(14), 6);
    assert_eq!(check_digit_for_sum(250), 0);
    assert_eq!(check_digit_for_sum(255), 5);
}

#[test]
fn compute_check_digit_weighs_three_then_one_from_the_right() {
    // 3*3 + 1*2 + 3*1 = 14
    assert_eq!(compute_check_digit("1230".as_bytes(), 4), 6);
    // 3*1 = 3
    assert_eq!(compute_check_digit("10".as_bytes(), 2), 7);
    // 1*1 + 3*0 = 1
    assert_eq!(compute_check_digit("100".as_bytes(), 3), 9);
    // 3*(5+1+2+0+6+0) + (4+9+0+0+3) = 42 + 16 = 58
    assert_eq!(compute_check_digit("036000291452".as_bytes(), 12), 2);
    // 3*(2+2+8+7+8+4) + (1+0+9+2+9+1) = 93 + 22 = 115
    assert_eq!(compute_check_digit("1498279802125".as_bytes(), 13), 5);
}

#[test]
fn compute_check_digit_ignores_the_last_place_and_what_follows() {
    for last in b'0'..=b'9' {
        let code = [b'1', b'4', b'5', b'6', b'7', b'8', b'1', last];
        assert_eq!(compute_check_digit(&code, 8), 0);
    }
    assert_eq!(compute_check_digit("1456781x".as_bytes(), 8), 0);
    assert_eq!(compute_check_digit("14567810 and more".as_bytes(), 8), 0);
    assert_eq!(compute_check_digit("123456789012".as_bytes(), 4), 6);
}

#[test]
fn compute_check_digit_of_short_codes() {
    assert_eq!(compute_check_digit("".as_bytes(), 0), 0);
    assert_eq!(compute_check_digit("7".as_bytes(), 0), 0);
    assert_eq!(compute_check_digit("7".as_bytes(), 1), 0);
    assert_eq!(compute_check_digit("x".as_bytes(), 1), 0);
}

#[test]
fn compute_check_digit_of_a_very_long_code() {
    // 50 000 nines weigh 3 and 49 999 weigh 1: 9 * 199 999 = 1 799 991.
    let code = vec![b'9'; 100_000];
    assert_eq!(compute_check_digit(&code, 100_000), 9);
    let zeros = vec![b'0'; 100_000];
    assert_eq!(compute_check_digit(&zeros, 100_000), 0);
}

#[test]
fn zero_pad_fills_up_from_the_left() {
    assert_eq!(zero_pad("1".to_string(), 4), "0001");
    assert_eq!(zero_pad("".to_string(), 3), "000");
    assert_eq!(zero_pad("abc".to_string(), 3), "abc");
    assert_eq!(zero_pad(" 12".to_string(), 5), "00 12");
    assert_eq!(zero_pad("9944220".to_string(), 8), "09944220");
}

#[test]
fn zero_pad_counts_bytes() {
    // The heart is three bytes long.
    assert_eq!(zero_pad("\u{2764}".to_string(), 3), "\u{2764}");
    assert_eq!(zero_pad("\u{2764}".to_string(), 4), "0\u{2764}");
    assert_eq!(zero_pad("\u{e9}1".to_string(), 5), "00\u{e9}1");
}

#[test]
fn zero_pad_is_idempotent() {
    for text in ["", "0", "12", "hello", "12345678", "123456789", "\u{2764}", " 7 "] {
        for size in 0..12 {
            let once = zero_pad(text.to_string(), size);
            let twice = zero_pad(once.clone(), size);
            assert_eq!(twice, once);
        }
    }
}

#[test]
fn weight_of_alternates_from_three() {
    assert_eq!(weight_of(1), 3);
    assert_eq!(weight_of(2), 1);
    assert_eq!(weight_of(3), 3);
    assert_eq!(weight_of(12), 1);
    assert_eq!(weight_of(13), 3);
    assert_eq!(weight_of(0), 1);
    assert_eq!(weight_of(usize::MAX), 3);
}

#[test]
fn byte_length_counts_bytes() {
    assert_eq!(byte_length(""), 0);
    assert_eq!(byte_length("12345678"), 8);
    assert_eq!(byte_length(" 1 "), 3);
    assert_eq!(byte_length("\u{2764}"), 3);
    assert_eq!(byte_length("\u{e9}1"), 3);
}
