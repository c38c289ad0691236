use ceraunus::text::{is_digit_char, is_word, read_digits, to_chars, u64_to_string, word_at};

#[test]
fn numbers_are_written_in_decimal() {
    assert_eq!(u64_to_string(0), "0");
    assert_eq!(u64_to_string(7), "7");
    assert_eq!(u64_to_string(10), "10");
    assert_eq!(u64_to_string(65535), "65535");
    assert_eq!(u64_to_string(u64::MAX), "18446744073709551615");
}

#[test]
fn digits_are_read_up_to_the_first_other_character() {
    let text = to_chars("depth250@100ms");
    assert_eq!(read_digits(&text, 5, 0xffff), (8, Some(250)));
    assert_eq!(read_digits(&text, 9, 0xffff), (12, Some(100)));
    assert_eq!(read_digits(&text, 0, 0xffff), (0, Some(0)));
    let big = to_chars("65536");
    assert_eq!(read_digits(&big, 0, 0xffff), (5, None));
    let edge = to_chars("65535");
    assert_eq!(read_digits(&edge, 0, 0xffff), (5, Some(65535)));
}

#[test]
fn words_are_found_where_they_stand() {
    let text = to_chars("btcusdt@depth");
    assert!(word_at(&text, 0, "btcusdt"));
    assert!(word_at(&text, 7, "@depth"));
    assert!(!word_at(&text, 8, "@depth"));
    assert!(!word_at(&text, 10, "pthx"));
    assert!(is_word(&text, "btcusdt@depth"));
    assert!(!is_word(&text, "btcusdt@dept"));
    assert!(is_digit_char('0') && is_digit_char('9') && !is_digit_char('a') && !is_digit_char('/'));
}
