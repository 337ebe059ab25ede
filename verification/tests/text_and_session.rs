use better_spotify::session::{session_id_from_cookie_header, VerifierStore};
use better_spotify::text::{decimal_string, join, parse_u32, IntParseError};

fn chars(s: &str) -> Vec<char> {
    s.chars().collect()
}

#[test]
fn parse_u32_reads_plain_and_plus_signed_numbers() {
    assert_eq!(parse_u32(&chars("42")), Ok(42));
    assert_eq!(parse_u32(&chars("+7")), Ok(7));
    assert_eq!(parse_u32(&chars("0050")), Ok(50));
    assert_eq!(parse_u32(&chars("4294967295")), Ok(4294967295));
}

#[test]
fn parse_u32_reports_the_kinds_std_reports() {
    assert_eq!(parse_u32(&chars("")), Err(IntParseError::Empty));
    assert_eq!(parse_u32(&chars("+")), Err(IntParseError::InvalidDigit));
    assert_eq!(parse_u32(&chars("-")), Err(IntParseError::InvalidDigit));
    assert_eq!(parse_u32(&chars("-1")), Err(IntParseError::InvalidDigit));
    assert_eq!(parse_u32(&chars("12a")), Err(IntParseError::InvalidDigit));
    assert_eq!(parse_u32(&chars(" 1")), Err(IntParseError::InvalidDigit));
    assert_eq!(parse_u32(&chars("4294967296")), Err(IntParseError::PosOverflow));
    assert_eq!(parse_u32(&chars("99999999999x")), Err(IntParseError::PosOverflow));
}

#[test]
fn parse_u32_agrees_with_std_on_samples() {
    for s in ["", "+", "-", "0", "+0", "123", "4294967295", "4294967296", "1x", "x1", "+-1", "٣"] {
        let ours = parse_u32(&chars(s));
        let std = s.parse::<u32>();
        match (ours, std) {
            (Ok(a), Ok(b)) => assert_eq!(a, b, "{}", s),
            (Err(k), Err(e)) => assert_eq!(k.message(), e.to_string(), "{}", s),
            (a, b) => panic!("{}: {:?} vs {:?}", s, a, b),
        }
    }
}

#[test]
fn parse_error_messages_match_std() {
    assert_eq!(IntParseError::Empty.message(), "cannot parse integer from empty string");
    assert_eq!(IntParseError::InvalidDigit.message(), "invalid digit found in string");
    assert_eq!(IntParseError::PosOverflow.message(), "number too large to fit in target type");
}

#[test]
fn decimal_and_join_render_as_std() {
    assert_eq!(decimal_string(0), "0");
    assert_eq!(decimal_string(1234567890), "1234567890");
    assert_eq!(decimal_string(u64::MAX), u64::MAX.to_string());
    let parts = vec!["a".to_string(), "b".to_string(), "c".to_string()];
    assert_eq!(join(&parts, ", "), "a, b, c");
    assert_eq!(join(&vec![], ", "), "");
}

#[test]
fn session_id_is_found_among_cookies() {
    assert_eq!(session_id_from_cookie_header("theme=dark; sid=abc123; lang=en"), Some("abc123".to_string()));
    assert_eq!(session_id_from_cookie_header("sid=xyz"), Some("xyz".to_string()));
}

#[test]
fn session_id_takes_the_first_sid_cookie() {
    assert_eq!(session_id_from_cookie_header("sid=first;sid=second"), Some("first".to_string()));
}

#[test]
fn session_id_strips_every_leading_sid_prefix_after_trimming() {
    assert_eq!(session_id_from_cookie_header("  sid=sid=x  "), Some("x".to_string()));
    assert_eq!(session_id_from_cookie_header("a=1;\t sid= v "), Some(" v".to_string()));
    assert_eq!(session_id_from_cookie_header("sid="), Some(String::new()));
}

#[test]
fn session_id_absent_without_a_sid_cookie() {
    assert_eq!(session_id_from_cookie_header(""), None);
    assert_eq!(session_id_from_cookie_header("theme=dark; xsid=1; SID=2"), None);
}

#[test]
fn verifier_store_hands_back_a_verifier_once() {
    let mut store = VerifierStore::new();
    store.put("state1".to_string(), "verifier1".to_string());
    store.put("state2".to_string(), "verifier2".to_string());
    assert_eq!(store.take("state1"), Some("verifier1".to_string()));
    assert_eq!(store.take("state1"), None);
    assert_eq!(store.take("state2"), Some("verifier2".to_string()));
    assert_eq!(store.take("unknown"), None);
}

#[test]
fn verifier_store_put_replaces_earlier_verifier() {
    let mut store = VerifierStore::new();
    store.put("s".to_string(), "old".to_string());
    store.put("s".to_string(), "new".to_string());
    assert_eq!(store.take("s"), Some("new".to_string()));
}
