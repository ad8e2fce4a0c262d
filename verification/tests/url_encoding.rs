use ratioup::{
    escape_char, get_URL_encoded, get_URL_encoded_char, pattern_compiles, percent_encode_char,
    try_get_URL_encoded,
};
use std::iter::FromIterator;

#[test]
fn should_encode_chars() {
    assert_eq!(get_URL_encoded_char("", 0x00 as char, false), "%00");
    assert_eq!(get_URL_encoded_char("", 0x01 as char, false), "%01");
    assert_eq!(get_URL_encoded_char("", 0x10 as char, false), "%10");
    assert_eq!(get_URL_encoded_char("", 0x1e as char, false), "%1e");
    assert_eq!(get_URL_encoded_char("", 0x32 as char, false), "%32");
    assert_eq!(get_URL_encoded_char("", 0x7a as char, false), "%7a");
    assert_eq!(get_URL_encoded_char("", 0xff as char, false), "%ff");
}

#[test]
fn should_not_encode_if_regex_dot_star() {
    assert_eq!(get_URL_encoded_char(r".*", 0x32 as char, false), "2");
    assert_eq!(get_URL_encoded_char(r".*", 0x6e as char, false), "n");
    assert_eq!(get_URL_encoded_char(r".*", 0x7a as char, false), "z");
}

#[test]
fn should_not_encode_excluded_chars() {
    assert_eq!(get_URL_encoded_char(r"[a-zA-Z0-9]", 0x00 as char, false), "%00");
    assert_eq!(get_URL_encoded_char(r"[a-zA-Z0-9]", 0x10 as char, false), "%10");
    assert_eq!(get_URL_encoded_char(r"[a-zA-Z0-9]", 0x1e as char, false), "%1e");
    assert_eq!(get_URL_encoded_char(r"[a-zA-Z0-9]", 0x32 as char, false), "2");
    assert_eq!(get_URL_encoded_char(r"[a-zA-Z0-9]", 0x7a as char, false), "z");
    assert_eq!(get_URL_encoded_char(r"[a-zA-Z0-9]", 0xff as char, false), "%ff");
}

#[test]
fn should_not_encode_translate_case_if_not_encoded_char() {
    assert_eq!(get_URL_encoded_char(r"[a-zA-Z0-9]", 0x79 as char, true), "y");
    assert_eq!(get_URL_encoded_char(r"[a-zA-Z0-9]", 0x59 as char, true), "Y");
}

#[test]
fn should_translate_case_if_encoded_char() {
    assert_eq!(get_URL_encoded_char(r"[a-zA-Z0-9]", 0xae as char, true), "%AE");
}

#[test]
fn should_encode() {
    assert_eq!(get_URL_encoded("[a-zA-Z0-9]", &String::from_iter(vec!['a', 0x11 as char, 'q', 0xf3 as char]), false), "a%11q%f3");
    assert_eq!(get_URL_encoded("", &String::from_iter(vec![0xA2 as char, 0x11 as char, 0xf3 as char]), true), "%A2%11%F3");
}

#[test]
fn percent_encoding_of_each_case() {
    assert_eq!(percent_encode_char('\u{ae}', false), "%ae");
    assert_eq!(percent_encode_char('\u{ae}', true), "%AE");
    assert_eq!(percent_encode_char('9', true), "%39");
    assert_eq!(percent_encode_char('%', false), "%25");
}

#[test]
fn only_the_low_byte_of_a_wide_character_is_written() {
    assert_eq!(percent_encode_char('\u{101}', false), "%01");
    assert_eq!(get_URL_encoded_char("", '\u{20ac}', true), "%AC");
}

#[test]
fn escape_char_follows_the_match_result() {
    assert_eq!(escape_char('Q', true, true), "Q");
    assert_eq!(escape_char('Q', false, false), "%51");
    assert_eq!(escape_char('\u{0}', false, true), "%00");
}

#[test]
fn empty_text_encodes_to_empty() {
    assert_eq!(get_URL_encoded("[a-z]", "", false), "");
    assert_eq!(get_URL_encoded("", "", true), "");
}

#[test]
fn client_exclusion_pattern_keeps_unreserved_characters() {
    let excl = "[A-Za-z0-9_~\\\\(\\\\)\\\\!\\\\.\\\\*-]";
    assert_eq!(get_URL_encoded(excl, "a.b~c d(e)", false), "a.b~c%20d(e)");
    assert_eq!(get_URL_encoded("[A-Za-z0-9-]", "x-y_z", true), "x-y%5Fz");
}

#[test]
fn encoding_a_concatenation_concatenates_the_encodings() {
    let p = "[a-z]";
    let a = "ab\u{1}C";
    let b = "%z\u{ff}";
    let whole = get_URL_encoded(p, &format!("{}{}", a, b), true);
    assert_eq!(whole, format!("{}{}", get_URL_encoded(p, a, true), get_URL_encoded(p, b, true)));
    assert_eq!(whole, "ab%01%43%25z%FF");
}

fn hex_value(c: char) -> Option<u32> {
    c.to_digit(16)
}

fn percent_decode(s: &str) -> String {
    let cs: Vec<char> = s.chars().collect();
    let mut out = String::new();
    let mut i = 0;
    while i < cs.len() {
        if cs[i] == '%' && i + 2 < cs.len() {
            if let (Some(h), Some(l)) = (hex_value(cs[i + 1]), hex_value(cs[i + 2])) {
                out.push(char::from_u32(h * 16 + l).unwrap());
                i += 3;
                continue;
            }
        }
        out.push(cs[i]);
        i += 1;
    }
    out
}

#[test]
fn decoding_gives_back_the_text() {
    let data = "Az9 \u{0}\u{7f}\u{ff}%";
    for upper in [false, true] {
        let encoded = get_URL_encoded("[A-Za-z0-9]", data, upper);
        assert_eq!(percent_decode(&encoded), data);
        let all = get_URL_encoded("", data, upper);
        assert_eq!(percent_decode(&all), data);
        let wide = "x\u{101}y";
        assert_eq!(percent_decode(&get_URL_encoded("[\u{101}]", wide, upper)), wide);
    }
}

#[test]
fn empty_pattern_triples_the_length() {
    let data = "abc\u{5}";
    let out = get_URL_encoded("", data, false);
    assert_eq!(out.chars().count(), 3 * data.chars().count());
    assert_eq!(out, "%61%62%63%05");
}

#[test]
fn invalid_pattern_is_reported() {
    assert!(!pattern_compiles("[a-z"));
    assert!(pattern_compiles("[a-z]"));
    assert_eq!(try_get_URL_encoded("[a-z", "abc", false), None);
    assert_eq!(try_get_URL_encoded("[a-z", "", false), Some(String::new()));
    assert_eq!(try_get_URL_encoded("[a-z]", "a!", false), Some("a%21".to_string()));
    assert_eq!(try_get_URL_encoded("", "a", true), Some("%61".to_string()));
}
