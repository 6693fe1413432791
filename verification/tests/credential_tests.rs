use avatarctl::credential::{
    cookie_header, credential_from_cookie_header, decode_credential, encode_credential,
    SessionCredential,
};

fn cred(auth: &str, two_factor: &str) -> SessionCredential {
    SessionCredential::new(auth.to_string(), two_factor.to_string())
}

#[test]
fn scenario_a_round_trip() {
    let c = cred("auth=tok1", "twoFactorAuth=");
    let content = encode_credential(&c);
    let loaded = decode_credential(content.as_str()).expect("two fields were written");
    assert_eq!(loaded.auth, "auth=tok1");
    assert_eq!(loaded.two_factor, "twoFactorAuth=");
}

#[test]
fn load_empty_content_is_none() {
    assert!(decode_credential("").is_none());
}

#[test]
fn load_single_field_is_none() {
    assert!(decode_credential("auth=abc").is_none());
}

#[test]
fn load_round_trips_empty_second_field() {
    let c = cred("auth=a", "");
    let content = encode_credential(&c);
    let loaded = decode_credential(content.as_str()).expect("both fields written");
    assert_eq!(loaded.auth, "auth=a");
    assert_eq!(loaded.two_factor, "");
}

#[test]
fn load_ignores_fields_after_the_first_two() {
    let loaded = decode_credential("first\nsecond\nthird\nfourth").unwrap();
    assert_eq!(loaded.auth, "first");
    assert_eq!(loaded.two_factor, "second");
}

#[test]
fn load_trims_each_field() {
    let loaded = decode_credential("  auth=a  \n\ttwoFactorAuth=b\r\nrest").unwrap();
    assert_eq!(loaded.auth, "auth=a");
    assert_eq!(loaded.two_factor, "twoFactorAuth=b");
}

#[test]
fn embedded_newline_breaks_the_round_trip() {
    let c = cred("auth=a\nb", "x");
    let content = encode_credential(&c);
    let loaded = decode_credential(content.as_str()).unwrap();
    assert_ne!(loaded.auth, c.auth);
}

#[test]
fn extract_cookies_from_header() {
    let c = credential_from_cookie_header("auth=abc; twoFactorAuth=xyz; path=/");
    assert_eq!(c.auth, "auth=abc");
    assert_eq!(c.two_factor, "twoFactorAuth=xyz");
    assert!(c.is_usable());
    assert!(c.is_complete());
}

#[test]
fn extract_missing_cookies_come_out_empty() {
    let c = credential_from_cookie_header("session=1; theme=dark");
    assert_eq!(c.auth, "");
    assert_eq!(c.two_factor, "");
    assert!(!c.is_usable());
    assert!(!c.is_complete());
}

#[test]
fn extract_takes_the_first_matching_piece() {
    let c = credential_from_cookie_header("auth=first; auth=second");
    assert_eq!(c.auth, "auth=first");
}

#[test]
fn missing_second_factor_cookie_still_usable() {
    let c = cred("auth=a", "");
    assert!(c.is_usable());
    assert!(!c.is_complete());
}

#[test]
fn replay_header_joins_both_cookies() {
    let c = cred("auth=a", "twoFactorAuth=b");
    assert_eq!(cookie_header(&c), "auth=a; twoFactorAuth=b");
}
