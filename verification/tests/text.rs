use aa_headunit_diagnostics::order::{sort_texts, text_le_exec};
use aa_headunit_diagnostics::text::{
    first_word, split_lines, decimal, hex_encode, is_whitespace, octal, pad_zeros, parse_u32, parse_u64, str_eq, trim,
};

#[test]
fn trimming_matches_str_trim() {
    for s in ["  a b  ", "\u{3000}x\u{2028}", "", "   ", "\tnone\n", "\u{85}y\u{a0}"] {
        assert_eq!(trim(s), s.trim());
    }
}

#[test]
fn whitespace_matches_char_is_whitespace() {
    for c in ['\t', '\n', ' ', '\u{85}', '\u{a0}', '\u{1680}', '\u{2000}', '\u{200a}', '\u{200b}', '\u{3000}', 'a', '\u{feff}'] {
        assert_eq!(is_whitespace(c), c.is_whitespace());
    }
}

#[test]
fn integer_parsing_matches_str_parse() {
    for s in ["0", "42", "+42", "-1", "", "+", "18446744073709551615", "18446744073709551616", "4294967295", "4294967296", "1_000", " 1"] {
        assert_eq!(parse_u64(s), s.parse::<u64>().ok());
        assert_eq!(parse_u32(s), s.parse::<u32>().ok());
    }
}

#[test]
fn number_formatting() {
    assert_eq!(decimal(0), "0");
    assert_eq!(decimal(1234567890123), "1234567890123");
    assert_eq!(octal(0o644), "644");
    assert_eq!(pad_zeros(octal(0o7), 4), "0007");
    assert_eq!(hex_encode(&[0x00, 0x0f, 0xa0]), "000fa0");
    assert!(str_eq("abc", "abc"));
    assert!(!str_eq("abc", "abd"));
}

#[test]
fn text_order_matches_string_order() {
    let words = ["", "a", "ab", "b", "B", "é", "z", "aa"];
    for a in words {
        for b in words {
            assert_eq!(text_le_exec(a, b), a <= b);
        }
    }
    let mut expected: Vec<String> = words.iter().map(|w| w.to_string()).collect();
    expected.sort();
    assert_eq!(sort_texts(words.iter().map(|w| w.to_string()).collect()), expected);
}

#[test]
fn lines_and_words_match_std() {
    for s in ["a\nb", "a\r\nb\r\n", "", "\n", "x\r", "one\n\ntwo\n", "\r\n\r"] {
        let expected: Vec<String> = s.lines().map(|l| l.to_string()).collect();
        assert_eq!(split_lines(s), expected);
    }
    for s in ["  hello world", "", "   ", "x", "\u{3000}wide\tword"] {
        assert_eq!(first_word(s), s.split_whitespace().next());
    }
}
