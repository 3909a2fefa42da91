use aws_mfa_session::error::RefreshError;
use aws_mfa_session::token::{
    get_mfa_token, is_valid_mfa_code, is_white_space_char, mfa_prompt, trim,
};

#[test]
fn token_accepts_six_digits() {
    assert_eq!(get_mfa_token("123456"), Ok("123456".to_string()));
}

#[test]
fn token_rejects_letters() {
    assert_eq!(get_mfa_token("abc123"), Err(RefreshError::InvalidMfaFormat));
}

#[test]
fn token_rejects_empty_input() {
    assert_eq!(get_mfa_token(""), Err(RefreshError::InvalidMfaFormat));
    assert_eq!(get_mfa_token("\n"), Err(RefreshError::InvalidMfaFormat));
    assert_eq!(get_mfa_token("  \t "), Err(RefreshError::InvalidMfaFormat));
}

#[test]
fn token_rejects_inner_white_space() {
    assert_eq!(get_mfa_token("12 34"), Err(RefreshError::InvalidMfaFormat));
    assert_eq!(get_mfa_token("12\t34\n"), Err(RefreshError::InvalidMfaFormat));
}

#[test]
fn token_keeps_leading_zeros() {
    assert_eq!(get_mfa_token("000123"), Ok("000123".to_string()));
    assert_eq!(get_mfa_token("000000"), Ok("000000".to_string()));
}

#[test]
fn token_drops_white_space_around_the_code() {
    assert_eq!(get_mfa_token("654321\n"), Ok("654321".to_string()));
    assert_eq!(get_mfa_token("654321\r\n"), Ok("654321".to_string()));
    assert_eq!(get_mfa_token(" \t654321  "), Ok("654321".to_string()));
    assert_eq!(get_mfa_token("\u{00A0}654321\u{3000}"), Ok("654321".to_string()));
}

#[test]
fn token_may_have_any_number_of_digits() {
    assert_eq!(get_mfa_token("7"), Ok("7".to_string()));
    assert_eq!(
        get_mfa_token("99999999999999999999999999\n"),
        Ok("99999999999999999999999999".to_string())
    );
}

#[test]
fn token_rejects_signs_and_separators() {
    assert_eq!(get_mfa_token("+123456"), Err(RefreshError::InvalidMfaFormat));
    assert_eq!(get_mfa_token("-123456"), Err(RefreshError::InvalidMfaFormat));
    assert_eq!(get_mfa_token("123_456"), Err(RefreshError::InvalidMfaFormat));
    assert_eq!(get_mfa_token("123.0"), Err(RefreshError::InvalidMfaFormat));
    assert_eq!(get_mfa_token("0x1234"), Err(RefreshError::InvalidMfaFormat));
}

#[test]
fn token_rejects_digits_of_other_scripts() {
    assert_eq!(get_mfa_token("\u{0661}\u{0662}\u{0663}"), Err(RefreshError::InvalidMfaFormat));
    assert_eq!(get_mfa_token("\u{FF11}23456"), Err(RefreshError::InvalidMfaFormat));
}

#[test]
fn token_rejects_what_is_not_white_space_at_the_ends() {
    assert_eq!(get_mfa_token("\u{200B}123456"), Err(RefreshError::InvalidMfaFormat));
    assert_eq!(get_mfa_token("123456\u{FEFF}"), Err(RefreshError::InvalidMfaFormat));
}

#[test]
fn valid_code_is_digits_only() {
    assert!(is_valid_mfa_code("0"));
    assert!(is_valid_mfa_code("0123456789"));
    assert!(!is_valid_mfa_code(""));
    assert!(!is_valid_mfa_code(" 1"));
    assert!(!is_valid_mfa_code("1 "));
    assert!(!is_valid_mfa_code("12a"));
    assert!(!is_valid_mfa_code("/"));
    assert!(!is_valid_mfa_code(":"));
}

#[test]
fn trim_drops_both_ends_only() {
    assert_eq!(trim(""), "");
    assert_eq!(trim("   "), "");
    assert_eq!(trim("a"), "a");
    assert_eq!(trim("  a b  "), "a b");
    assert_eq!(trim("\n\t x \r\n"), "x");
    assert_eq!(trim("x\u{2003}"), "x");
    assert_eq!(trim("\u{00E9}t\u{00E9} "), "\u{00E9}t\u{00E9}");
}

#[test]
fn trim_agrees_with_the_standard_library() {
    let samples = [
        "",
        " ",
        "123456\n",
        "\u{0009}\u{000A}\u{000B}\u{000C}\u{000D}\u{0020}x\u{0085}\u{00A0}\u{1680}",
        "\u{2000}\u{2001}\u{2002}\u{2003}\u{2004}\u{2005}y z\u{2006}\u{2007}\u{2008}\u{2009}\u{200A}",
        "\u{2028}\u{2029}\u{202F}\u{205F}\u{3000}w\u{3000}",
        "\u{200B}x\u{200B}",
        "\u{180E}x\u{FEFF}",
        " \u{001C}x\u{001F} ",
        "  many words in a line  ",
    ];
    for sample in samples {
        assert_eq!(trim(sample), sample.trim());
    }
}

#[test]
fn white_space_is_what_the_standard_library_calls_white_space() {
    let mut code: u32 = 0;
    while code <= 0x10FFFF {
        if let Some(c) = char::from_u32(code) {
            assert_eq!(is_white_space_char(c), c.is_whitespace());
        }
        code += 1;
    }
}

#[test]
fn digits_are_the_ten_ascii_digits() {
    let mut code: u32 = 0;
    while code <= 0x10FFFF {
        if let Some(c) = char::from_u32(code) {
            assert_eq!(is_valid_mfa_code(c.encode_utf8(&mut [0; 4])), c.is_ascii_digit());
        }
        code += 1;
    }
}

#[test]
fn prompt_names_the_device() {
    assert_eq!(
        mfa_prompt("arn:aws:iam::111111111111:mfa/user"),
        "Please, provide a valid mfa token for AWS mfa device arn:aws:iam::111111111111:mfa/user"
    );
    assert_eq!(mfa_prompt(""), "Please, provide a valid mfa token for AWS mfa device ");
}
