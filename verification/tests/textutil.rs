use cloudflare_ddns::errors::{CycleError, PublicIPError};
use cloudflare_ddns::textutil::trim_whitespace;

#[test]
fn trims_surrounding_whitespace() {
    assert_eq!(trim_whitespace("  203.0.113.5\n"), "203.0.113.5");
    assert_eq!(trim_whitespace("\r\n\t 10.0.0.1 \t\r\n"), "10.0.0.1");
}

#[test]
fn keeps_inner_whitespace_and_clean_text() {
    assert_eq!(trim_whitespace("203.0.113.5"), "203.0.113.5");
    assert_eq!(trim_whitespace("a b"), "a b");
}

#[test]
fn trims_unicode_whitespace_like_str_trim() {
    assert_eq!(trim_whitespace("\u{a0}203.0.113.5\u{2028}"), "203.0.113.5");
    assert_eq!(trim_whitespace("\u{3000}\u{2009}1.2.3.4\u{85}"), "1.2.3.4");
    assert_eq!(trim_whitespace("  a\u{a0}b  "), "a\u{a0}b");
    // agrees with the standard library on these bodies
    assert_eq!(trim_whitespace("\u{a0}203.0.113.5\u{2028}"), "\u{a0}203.0.113.5\u{2028}".trim());
}

#[test]
fn trims_everything_of_blank_text() {
    assert_eq!(trim_whitespace(""), "");
    assert_eq!(trim_whitespace(" \n\t\r"), "");
}

#[test]
fn public_ip_error_keeps_its_message() {
    let error = PublicIPError::new("Error getting public ip.");
    assert_eq!(error.description(), "Error getting public ip.");
    assert_eq!(error.msg, "Error getting public ip.");
}

#[test]
fn cycle_error_kinds_are_distinct() {
    assert_ne!(CycleError::TransportError, CycleError::ParseError);
    assert_ne!(CycleError::ProviderError, CycleError::NoPublicIPAvailable);
    assert_eq!(CycleError::ParseError, CycleError::ParseError);
}
