use zero2prod::routes::login::error_location;
use zero2prod::text::{same_text, url_encode, usize_to_decimal};

#[test]
fn numbers_are_written_in_decimal() {
    assert_eq!(usize_to_decimal(0), "0");
    assert_eq!(usize_to_decimal(7), "7");
    assert_eq!(usize_to_decimal(1234), "1234");
    assert_eq!(usize_to_decimal(usize::MAX), usize::MAX.to_string());
}

#[test]
fn decimal_text_reads_back_as_the_number() {
    for n in [0usize, 9, 10, 99, 100, 40321] {
        assert_eq!(usize_to_decimal(n).parse::<usize>().unwrap(), n);
    }
}

#[test]
fn percent_encoding_keeps_unreserved_characters() {
    assert_eq!(url_encode("AZaz09-._~"), "AZaz09-._~");
}

#[test]
fn percent_encoding_escapes_every_other_byte_in_upper_case() {
    assert_eq!(url_encode("a b/c?"), "a%20b%2Fc%3F");
    assert_eq!(url_encode("é"), "%C3%A9");
    assert_eq!(url_encode(""), "");
}

#[test]
fn login_error_location_carries_the_encoded_message() {
    assert_eq!(error_location("Authentication failed."), "/login?error=Authentication%20failed.");
}

#[test]
fn same_text_compares_characters() {
    assert!(same_text("abc", "abc"));
    assert!(!same_text("abc", "abd"));
    assert!(!same_text("abc", "ab"));
    assert!(same_text("", ""));
}

#[test]
fn percent_encoding_gives_only_url_safe_characters() {
    let encoded = url_encode("naïve <script>&\"quotes\" 100% ✓");
    assert!(encoded
        .chars()
        .all(|c| c.is_ascii_alphanumeric() || c == '-' || c == '.' || c == '_' || c == '~' || c == '%'));
    assert_eq!(encoded, "na%C3%AFve%20%3Cscript%3E%26%22quotes%22%20100%25%20%E2%9C%93");
}
