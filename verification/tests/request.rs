use subscription_feed::auth::{success_redirect_url, DEFAULT_LIFETIME_SECONDS};
use subscription_feed::models::{SavedToken, Timestamp};
use subscription_feed::request::{access_token, request_credential};

#[test]
fn access_token_drops_the_bearer_mark() {
    assert_eq!(access_token("Bearer abc.def"), "abc.def");
    assert_eq!(access_token("abc.def"), "abc.def");
    assert_eq!(access_token("Bearer "), "");
    assert_eq!(access_token(""), "");
    assert_eq!(access_token("bearer abc"), "bearer abc");
    assert_eq!(access_token("Bearer Bearer abc"), "abc");
    assert_eq!(access_token("abcBearer def"), "abcdef");
    assert_eq!(access_token("BeaBearer rer x"), "Bearer x");
    assert_eq!(access_token("Bearerabc"), "Bearerabc");
}

#[test]
fn credential_without_refresh_header_has_no_lifetime() {
    let now = Timestamp::new(1_700_000_000, 12);
    assert_eq!(
        request_credential("Bearer tok", None, Some("3600"), now),
        SavedToken {
            access_token: "tok".to_string(),
            refresh_token: None,
            expires_in: None,
            issued_at: now,
        }
    );
}

#[test]
fn credential_takes_refresh_token_and_lifetime() {
    let now = Timestamp::new(1_700_000_000, 0);
    let credential = request_credential("Bearer tok", Some("refresh"), Some("3599"), now);
    assert_eq!(
        credential,
        SavedToken {
            access_token: "tok".to_string(),
            refresh_token: Some("refresh".to_string()),
            expires_in: Some(3599),
            issued_at: now,
        }
    );
    assert!(!credential.needs_refresh(&now, 300));
    let short = request_credential("Bearer tok", Some("refresh"), Some("120"), now);
    assert!(short.needs_refresh(&now, 300));
}

#[test]
fn lifetime_must_be_a_plain_number() {
    let now = Timestamp::new(0, 0);
    let lifetime =
        |text: &str| request_credential("Bearer t", Some("r"), Some(text), now).expires_in;
    assert_eq!(lifetime("0"), Some(0));
    assert_eq!(lifetime("007"), Some(7));
    assert_eq!(lifetime("+15"), Some(15));
    assert_eq!(lifetime("18446744073709551615"), Some(u64::MAX));
    assert_eq!(lifetime("18446744073709551616"), None);
    assert_eq!(lifetime(""), None);
    assert_eq!(lifetime("+"), None);
    assert_eq!(lifetime("-1"), None);
    assert_eq!(lifetime("-0"), None);
    assert_eq!(lifetime("++1"), None);
    assert_eq!(lifetime(" 1"), None);
    assert_eq!(lifetime("1 "), None);
    assert_eq!(lifetime("1_000"), None);
    assert_eq!(lifetime("12a"), None);
    assert_eq!(lifetime("3.5"), None);
    assert_eq!(lifetime("٣"), None);
    assert_eq!(request_credential("Bearer t", Some("r"), None, now).expires_in, None);
}

#[test]
fn redirect_carries_the_credential() {
    assert_eq!(DEFAULT_LIFETIME_SECONDS, 3600);
    assert_eq!(
        success_redirect_url("ya29.token", Some("1//refresh"), Some(3599)),
        "http://localhost:3000/?access_token=ya29.token&refresh_token=1//refresh&expires_in=3599"
    );
    assert_eq!(
        success_redirect_url("ya29.token", None, None),
        "http://localhost:3000/?access_token=ya29.token&refresh_token=&expires_in=3600"
    );
    assert_eq!(
        success_redirect_url("", Some(""), Some(0)),
        "http://localhost:3000/?access_token=&refresh_token=&expires_in=0"
    );
}
