use weibo_privacy::session::extract_xsrf_token;
use weibo_privacy::{ClientError, WeiboPrivacyClient};

#[test]
fn token_is_found_between_other_segments() {
    let cookie = "SUB=abc; XSRF-TOKEN=tok123; SUBP=xyz";
    assert_eq!(extract_xsrf_token(cookie), Some("tok123".to_string()));
}

#[test]
fn token_is_found_at_the_end_of_the_string() {
    assert_eq!(extract_xsrf_token("a=1;XSRF-TOKEN=last"), Some("last".to_string()));
}

#[test]
fn token_is_found_in_a_single_segment() {
    assert_eq!(extract_xsrf_token("XSRF-TOKEN=only"), Some("only".to_string()));
}

#[test]
fn token_value_is_trimmed() {
    assert_eq!(extract_xsrf_token("a=1;  XSRF-TOKEN=  spaced \t; b=2"), Some("spaced".to_string()));
}

#[test]
fn token_key_is_trimmed_on_both_sides() {
    assert_eq!(extract_xsrf_token("a=1;\tXSRF-TOKEN =v;"), Some("v".to_string()));
}

#[test]
fn token_value_ends_at_the_next_equals_sign() {
    assert_eq!(extract_xsrf_token("XSRF-TOKEN=abc=def; b=2"), Some("abc".to_string()));
}

#[test]
fn first_token_segment_wins() {
    assert_eq!(extract_xsrf_token("XSRF-TOKEN=one; XSRF-TOKEN=two"), Some("one".to_string()));
}

#[test]
fn empty_token_is_no_token() {
    assert_eq!(extract_xsrf_token("a=1; XSRF-TOKEN=; b=2"), None);
    assert_eq!(extract_xsrf_token("XSRF-TOKEN=   "), None);
}

#[test]
fn empty_first_token_segment_hides_later_ones() {
    assert_eq!(extract_xsrf_token("XSRF-TOKEN=; XSRF-TOKEN=two"), None);
}

#[test]
fn missing_token_segment_is_no_token() {
    assert_eq!(extract_xsrf_token(""), None);
    assert_eq!(extract_xsrf_token("SUB=abc; SUBP=xyz"), None);
    assert_eq!(extract_xsrf_token("XSRF-TOKEN"), None);
    assert_eq!(extract_xsrf_token("MY-XSRF-TOKEN=abc"), None);
    assert_eq!(extract_xsrf_token("xsrf-token=abc"), None);
    assert_eq!(extract_xsrf_token("XSRF-TOKENS=abc"), None);
    assert_eq!(extract_xsrf_token(";;;"), None);
}

#[test]
fn token_may_hold_characters_beyond_ascii() {
    assert_eq!(extract_xsrf_token("名=值; XSRF-TOKEN=\u{3000}令牌\u{00A0}; x=y"), Some("令牌".to_string()));
}

#[test]
fn client_keeps_the_credential_string_whole() {
    let cookie = "SUB=abc;  XSRF-TOKEN= tok ; SUBP=xyz".to_string();
    let client = WeiboPrivacyClient::new(cookie.clone()).unwrap();
    assert_eq!(client.cookie(), cookie);
    assert_eq!(client.xsrf_token(), "tok");
}

#[test]
fn client_without_token_is_refused() {
    let r = WeiboPrivacyClient::new("SUB=abc; SUBP=xyz".to_string());
    assert_eq!(r.err(), Some(ClientError::Auth));
    let r = WeiboPrivacyClient::new("XSRF-TOKEN=".to_string());
    assert_eq!(r.err(), Some(ClientError::Auth));
}
