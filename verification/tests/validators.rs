use creator_store::error::{CrudError, ErrorKind};
use creator_store::validate::{accept_url, clamp_rate, positive_id, sanitize_input, sanitize_urls};

fn expected_plain(c: char) -> bool {
    let n = c as u32;
    c.is_ascii_alphanumeric()
        || (0x09..=0x0D).contains(&n)
        || n == 0x20
        || n == 0x85
        || n == 0xA0
        || n == 0x1680
        || (0x2000..=0x200A).contains(&n)
        || n == 0x2028
        || n == 0x2029
        || n == 0x202F
        || n == 0x205F
        || n == 0x3000
}

#[test]
fn plain_text_is_returned_unchanged() {
    assert_eq!(sanitize_input("Alice 123"), Some("Alice 123".to_string()));
    assert_eq!(sanitize_input("tabs\tand\nlines\r\n"), Some("tabs\tand\nlines\r\n".to_string()));
    assert_eq!(sanitize_input("azAZ09"), Some("azAZ09".to_string()));
}

#[test]
fn empty_text_is_plain() {
    assert_eq!(sanitize_input(""), Some(String::new()));
}

#[test]
fn punctuation_is_rejected() {
    for text in ["a-b", "a_b", "hello!", "50%", "a.b", "x,y", "(x)", "a/b", "a:b", "'quoted'"] {
        assert_eq!(sanitize_input(text), None, "{:?}", text);
    }
}

#[test]
fn urls_emojis_and_accents_are_rejected_as_text() {
    assert_eq!(sanitize_input("https://example.com"), None);
    assert_eq!(sanitize_input("nice \u{1F600}"), None);
    assert_eq!(sanitize_input("\u{e9}mile"), None);
    assert_eq!(sanitize_input("\u{4e2d}\u{6587}"), None);
}

#[test]
fn one_bad_character_anywhere_rejects_the_text() {
    assert_eq!(sanitize_input("!abc"), None);
    assert_eq!(sanitize_input("ab!c"), None);
    assert_eq!(sanitize_input("abc!"), None);
    assert_eq!(sanitize_input("abc\n!"), None);
    assert_eq!(sanitize_input("!\nabc"), None);
}

#[test]
fn every_ascii_character_is_classified() {
    for n in 0u32..128 {
        let c = char::from_u32(n).unwrap();
        let text = format!("a{}b", c);
        assert_eq!(sanitize_input(&text).is_some(), expected_plain(c), "U+{:04X}", n);
        if expected_plain(c) {
            assert_eq!(sanitize_input(&text), Some(text.clone()));
        }
    }
}

#[test]
fn unicode_whitespace_is_plain() {
    let spaces = [
        0x85u32, 0xA0, 0x1680, 0x2000, 0x2001, 0x2002, 0x2003, 0x2004, 0x2005, 0x2006, 0x2007,
        0x2008, 0x2009, 0x200A, 0x2028, 0x2029, 0x202F, 0x205F, 0x3000,
    ];
    for n in spaces {
        let c = char::from_u32(n).unwrap();
        let text = format!("a{}b", c);
        assert_eq!(sanitize_input(&text), Some(text.clone()), "U+{:04X}", n);
    }
}

#[test]
fn characters_next_to_whitespace_ranges_are_rejected() {
    let others = [
        0x08u32, 0x0E, 0x1C, 0x1F, 0x21, 0x2F, 0x3A, 0x40, 0x5B, 0x60, 0x7B, 0x7F, 0x84, 0x86, 0x9F,
        0xA1, 0x167F, 0x1681, 0x180E, 0x1FFF, 0x200B, 0x200C, 0x200D, 0x2027, 0x202A, 0x202E, 0x2030,
        0x205E, 0x2060, 0x2FFF, 0x3001, 0xFEFF, 0xFF10, 0xFF21, 0x10FFFF,
    ];
    for n in others {
        let c = char::from_u32(n).unwrap();
        assert!(!expected_plain(c));
        let text = format!("a{}b", c);
        assert_eq!(sanitize_input(&text), None, "U+{:04X}", n);
    }
}

#[test]
fn absolute_urls_with_a_host_are_returned_unchanged() {
    for url in [
        "https://example.com",
        "http://127.0.0.1/index.html",
        "https://subdomain.example.com/path?query=1#fragment",
        "ftp://rms@example.com",
        "HTTPS://EXAMPLE.COM/Upper",
    ] {
        assert_eq!(sanitize_urls(url), Some(url.to_string()), "{:?}", url);
    }
}

#[test]
fn strings_that_do_not_parse_as_urls_are_rejected() {
    for url in ["", "example.com", "/relative/path", "not a url", "http://", "://example.com", "1http://example.com"] {
        assert_eq!(sanitize_urls(url), None, "{:?}", url);
    }
}

#[test]
fn urls_without_a_host_are_rejected() {
    for url in ["mailto:someone@example.com", "data:text/plain,Stuff", "unix:/run/foo.socket"] {
        assert_eq!(sanitize_urls(url), None, "{:?}", url);
    }
}

#[test]
fn accept_url_keeps_the_input_only_for_a_parsed_url_with_host() {
    assert_eq!(accept_url("anything", Some(true)), Some("anything".to_string()));
    assert_eq!(accept_url("anything", Some(false)), None);
    assert_eq!(accept_url("anything", None), None);
}

#[test]
fn rates_from_zero_to_ten_are_accepted() {
    for n in 0..=10 {
        assert_eq!(clamp_rate(n), Ok(n));
    }
}

#[test]
fn rates_outside_zero_to_ten_fail_without_clamping() {
    for n in [-1, 11, i32::MIN, i32::MAX, -10, 100] {
        assert_eq!(clamp_rate(n), Err(CrudError::InvalidRate));
    }
}

#[test]
fn identifiers_must_be_positive() {
    assert_eq!(positive_id(1), Ok(1));
    assert_eq!(positive_id(i32::MAX), Ok(i32::MAX));
    assert_eq!(positive_id(0), Err(CrudError::InvalidId));
    assert_eq!(positive_id(-1), Err(CrudError::InvalidId));
    assert_eq!(positive_id(i32::MIN), Err(CrudError::InvalidId));
}

#[test]
fn every_error_has_its_kind() {
    let validation = [
        CrudError::InvalidName,
        CrudError::InvalidHomepage,
        CrudError::InvalidRate,
        CrudError::InvalidId,
        CrudError::InvalidReason,
        CrudError::InvalidUrl,
        CrudError::InvalidSource,
    ];
    for e in validation {
        assert_eq!(e.kind(), ErrorKind::Validation);
    }
    assert_eq!(CrudError::InvalidCreatorId.kind(), ErrorKind::InvalidReference);
    assert_eq!(CrudError::CreatorNotFound.kind(), ErrorKind::NotFound);
    assert_eq!(CrudError::BlacklistedCreatorNotFound.kind(), ErrorKind::NotFound);
    assert_eq!(CrudError::InterestingLinkNotFound.kind(), ErrorKind::NotFound);
    assert_eq!(CrudError::TableFull.kind(), ErrorKind::Storage);
}

#[test]
fn every_error_has_its_message() {
    assert_eq!(CrudError::InvalidName.message(), "Invalid name input");
    assert_eq!(CrudError::InvalidHomepage.message(), "Invalid homepage input");
    assert_eq!(CrudError::InvalidRate.message(), "Rate must be between 0 and 10");
    assert_eq!(CrudError::InvalidId.message(), "Invalid ID");
    assert_eq!(CrudError::InvalidReason.message(), "Invalid reason input");
    assert_eq!(CrudError::InvalidUrl.message(), "Invalid URL input");
    assert_eq!(CrudError::InvalidSource.message(), "Invalid source input");
    assert_eq!(CrudError::InvalidCreatorId.message(), "Invalid creator ID");
    assert_eq!(CrudError::CreatorNotFound.message(), "No creator found with the specified ID");
    assert_eq!(
        CrudError::BlacklistedCreatorNotFound.message(),
        "No blacklisted creator found with the specified ID"
    );
    assert_eq!(
        CrudError::InterestingLinkNotFound.message(),
        "No interesting link found with the specified ID"
    );
    assert_eq!(CrudError::TableFull.message(), "Database error: table is full");
}
