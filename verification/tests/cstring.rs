use htsengine::cstring::{find_nul, to_c_string, to_c_strings};
use htsengine::HTSEngineError;

#[test]
fn find_nul_in_empty_bytes() {
    assert_eq!(find_nul(&[]), None);
}

#[test]
fn find_nul_without_zero() {
    assert_eq!(find_nul(b"sil-a+i"), None);
}

#[test]
fn find_nul_reports_first_of_several() {
    assert_eq!(find_nul(&[7, 0, 9, 0]), Some(1));
}

#[test]
fn find_nul_at_start_and_end() {
    assert_eq!(find_nul(&[0, 1, 2]), Some(0));
    assert_eq!(find_nul(&[1, 2, 0]), Some(2));
}

#[test]
fn c_string_of_ascii_is_bytes_and_terminator() {
    assert_eq!(to_c_string("abc"), Ok(vec![97, 98, 99, 0]));
}

#[test]
fn c_string_of_empty_is_terminator_alone() {
    assert_eq!(to_c_string(""), Ok(vec![0]));
}

#[test]
fn c_string_of_kana_is_utf8() {
    assert_eq!(to_c_string("あ"), Ok(vec![0xE3, 0x81, 0x82, 0]));
}

#[test]
fn c_string_of_four_byte_character() {
    assert_eq!(to_c_string("\u{1F600}"), Ok(vec![0xF0, 0x9F, 0x98, 0x80, 0]));
}

#[test]
fn c_string_of_two_byte_character_with_zero_low_bits() {
    // U+0080 and U+0040 share their low six bits with U+0000.
    assert_eq!(to_c_string("\u{80}"), Ok(vec![0xC2, 0x80, 0]));
    assert_eq!(to_c_string("\u{40}"), Ok(vec![0x40, 0]));
}

#[test]
fn c_string_refuses_zero_in_the_middle() {
    assert_eq!(to_c_string("a\0b"), Err(HTSEngineError::CStringError));
}

#[test]
fn c_string_refuses_zero_at_either_end() {
    assert_eq!(to_c_string("\0a"), Err(HTSEngineError::CStringError));
    assert_eq!(to_c_string("a\0"), Err(HTSEngineError::CStringError));
    assert_eq!(to_c_string("\0"), Err(HTSEngineError::CStringError));
}

#[test]
fn c_string_is_the_utf8_bytes_and_terminator() {
    let texts = ["", "a", "xx^xx-sil+k=o", "こんにちは", "tab\there", "é\u{7FF}\u{800}\u{FFFF}\u{10000}"];
    for text in texts {
        let mut expected = text.as_bytes().to_vec();
        expected.push(0);
        assert_eq!(to_c_string(text), Ok(expected));
    }
}

#[test]
fn c_strings_of_no_text() {
    assert_eq!(to_c_strings(&Vec::new()), Ok(Vec::new()));
}

#[test]
fn c_strings_keep_order() {
    let texts = vec!["b".to_string(), "a".to_string(), "".to_string()];
    assert_eq!(to_c_strings(&texts), Ok(vec![vec![98, 0], vec![97, 0], vec![0]]));
}

#[test]
fn c_strings_are_all_or_none() {
    let texts = vec!["a".to_string(), "b\0".to_string(), "c".to_string()];
    assert_eq!(to_c_strings(&texts), Err(HTSEngineError::CStringError));
    let texts = vec!["a".to_string(), "b".to_string(), "\0".to_string()];
    assert_eq!(to_c_strings(&texts), Err(HTSEngineError::CStringError));
}
