use xero_rs_async::auth::join_scopes;
use xero_rs_async::auth::TokenManager;
use xero_rs_async::auth::TokenSet;
use xero_rs_async::clock::Instant;

fn token(obtained_at: Instant, expires_in: u64) -> TokenSet {
    TokenSet {
        access_token: "token".to_string(),
        refresh_token: None,
        id_token: None,
        expires_in,
        token_type: "Bearer".to_string(),
        obtained_at,
    }
}

#[test]
fn a_token_counts_as_expired_60_seconds_before_its_end() {
    let at = Instant { secs: 1_750_000_000, nanos: 500 };
    let set = token(at, 1800);
    let end = 1_750_000_000 + 1800;
    assert!(!set.is_expired_at(&Instant { secs: 1_750_000_000, nanos: 0 }));
    assert!(!set.is_expired_at(&Instant { secs: end - 61, nanos: 999_999_999 }));
    assert!(!set.is_expired_at(&Instant { secs: end - 60, nanos: 500 }));
    assert!(set.is_expired_at(&Instant { secs: end - 60, nanos: 501 }));
    assert!(set.is_expired_at(&Instant { secs: end, nanos: 0 }));
}

#[test]
fn expiry_does_not_overflow() {
    let set = token(Instant { secs: i64::MAX, nanos: 1_999_999_999 }, u64::MAX);
    assert!(!set.is_expired_at(&Instant { secs: i64::MAX, nanos: 0 }));
    let old = token(Instant { secs: i64::MIN, nanos: 0 }, 0);
    assert!(old.is_expired_at(&Instant { secs: i64::MIN, nanos: 0 }));
}

#[test]
fn a_token_is_judged_by_the_clock() {
    let now = chrono::Utc::now().timestamp();
    assert!(!token(Instant { secs: now, nanos: 0 }, 1800).is_expired());
    assert!(token(Instant { secs: now - 1800, nanos: 0 }, 1800).is_expired());
    assert!(token(Instant { secs: now, nanos: 0 }, 30).is_expired());
    assert!(TokenSet::default().is_expired());
}

#[test]
fn the_default_token_set_is_empty_and_obtained_at_the_epoch() {
    let set = TokenSet::default();
    assert_eq!(set.access_token, "");
    assert_eq!(set.refresh_token, None);
    assert_eq!(set.id_token, None);
    assert_eq!(set.expires_in, 0);
    assert_eq!(set.token_type, "");
    assert_eq!(set.obtained_at, Instant { secs: 0, nanos: 0 });
}

#[test]
fn scopes_are_joined_with_spaces() {
    assert_eq!(join_scopes(&[]), "");
    assert_eq!(join_scopes(&["openid"]), "openid");
    assert_eq!(
        join_scopes(&["openid", "profile", "offline_access"]),
        "openid profile offline_access"
    );
}

#[test]
fn the_authorization_url_carries_the_credentials_scopes_and_state() {
    let manager = TokenManager::new(
        "CLIENT".to_string(),
        "SECRET".to_string(),
        "http://localhost/callback".to_string(),
    );
    assert_eq!(manager.client_id(), "CLIENT");
    assert_eq!(manager.client_secret(), "SECRET");
    assert_eq!(manager.redirect_uri(), "http://localhost/callback");
    let url = manager
        .get_authorization_url(&["openid", "accounting.transactions"], "a&b=c")
        .expect("the authorisation address is a url");
    assert_eq!(
        url,
        "https://login.xero.com/identity/connect/authorize?response_type=code&client_id=CLIENT&redirect_uri=http%3A%2F%2Flocalhost%2Fcallback&scope=openid+accounting.transactions&state=a%26b%3Dc"
    );
}

#[test]
fn the_authorization_url_is_what_the_url_crate_builds() {
    let manager = TokenManager::new("id".to_string(), "s".to_string(), "https://x.test/cb".to_string());
    let mut expected = url::Url::parse("https://login.xero.com/identity/connect/authorize").expect("a url");
    expected
        .query_pairs_mut()
        .append_pair("response_type", "code")
        .append_pair("client_id", "id")
        .append_pair("redirect_uri", "https://x.test/cb")
        .append_pair("scope", "files assets")
        .append_pair("state", "12345");
    assert_eq!(
        manager.get_authorization_url(&["files", "assets"], "12345").expect("a url"),
        expected.to_string()
    );
}
