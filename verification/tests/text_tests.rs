use opal::number::{find_first, has_char, is_float_literal, parse_u32, word_after_key, word_char, word_from};
use opal::text::{
    char_is_numeric, char_utf8_len, chars_to_string, concat_chars, fits_within, i32_to_decimal,
    str_chars, string_push, to_ascii_upper, u32_to_decimal, usize_to_decimal, utf8_len_of_bounded,
};

fn chars(s: &str) -> Vec<char> {
    s.chars().collect()
}

#[test]
fn decimal_texts() {
    assert_eq!(u32_to_decimal(0), chars("0"));
    assert_eq!(u32_to_decimal(4_294_967_295), chars("4294967295"));
    assert_eq!(usize_to_decimal(150), chars("150"));
    assert_eq!(i32_to_decimal(-7), chars("-7"));
    assert_eq!(i32_to_decimal(i32::MIN), chars("-2147483648"));
    assert_eq!(i32_to_decimal(12), chars("12"));
}

#[test]
fn strings_and_chars() {
    assert_eq!(str_chars("aé✓"), vec!['a', 'é', '✓']);
    assert_eq!(chars_to_string(&['h', 'i']), "hi");
    let mut s = String::from("ab");
    string_push(&mut s, 'ç');
    assert_eq!(s, "abç");
    assert_eq!(concat_chars(&['a'], &['b', 'c']), chars("abc"));
    assert_eq!(to_ascii_upper('q'), 'Q');
    assert_eq!(to_ascii_upper('é'), 'é');
    assert_eq!(char_utf8_len('a'), 1);
    assert_eq!(char_utf8_len('é'), 2);
    assert_eq!(char_utf8_len('✓'), 3);
    assert_eq!(char_utf8_len('😀'), 4);
}

#[test]
fn numeric_chars() {
    assert!(char_is_numeric('7'));
    assert!(!char_is_numeric('x'));
    assert!(char_is_numeric('\u{0663}'));
    assert!(char_is_numeric('½'));
}

#[test]
fn byte_budgets() {
    assert!(fits_within(&['a', 'é'], 3));
    assert!(!fits_within(&['a', 'é'], 2));
    assert_eq!(utf8_len_of_bounded(&['a', 'é'], 10), 3);
}

#[test]
fn word_scanning() {
    let line = chars("G1 X-1.5Y2");
    assert_eq!(find_first(&line, 'X'), Some(3));
    assert_eq!(find_first(&line, 'Z'), None);
    assert!(has_char(&line, 'Y'));
    assert_eq!(word_after_key(&line, 'X'), chars("-1.5"));
    assert_eq!(word_after_key(&line, 'Y'), chars("2"));
    assert_eq!(word_after_key(&line, 'Z'), chars(""));
    assert_eq!(word_from(&line, 1), chars("1"));
    assert!(word_char('+') && word_char('.') && word_char('9') && !word_char('X'));
}

#[test]
fn integer_and_float_literals() {
    assert_eq!(parse_u32(&chars("90")), Some(90));
    assert_eq!(parse_u32(&chars("+3")), Some(3));
    assert_eq!(parse_u32(&chars("4294967295")), Some(u32::MAX));
    assert_eq!(parse_u32(&chars("4294967296")), None);
    assert_eq!(parse_u32(&chars("-1")), None);
    assert_eq!(parse_u32(&chars("")), None);
    assert_eq!(parse_u32(&chars("1.5")), None);
    for ok in ["1", "-1", "+1.5", ".5", "5.", "007"] {
        assert!(is_float_literal(&chars(ok)), "{}", ok);
        assert!(ok.parse::<f32>().is_ok());
    }
    for bad in ["", "-", ".", "1.2.3", "1-2", "+-1", "--1"] {
        assert!(!is_float_literal(&chars(bad)), "{}", bad);
        assert!(bad.parse::<f32>().is_err());
    }
}
