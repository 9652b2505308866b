use mal_api::auth::{
    Auth, AuthPhase, AuthTokens, ExchangeOutcome, RefreshDecision, TokenDecision, TokenError,
    TokenGrant, AUTH_URL, LAST_CLOCK_INSTANT, REFRESH_VALIDITY_SECONDS, TOKEN_URL,
};

const REDIRECT: &str = "http://localhost:8080/callback";

fn manager() -> Auth {
    Auth::new("client".to_string(), "secret".to_string(), REDIRECT.to_string()).unwrap()
}

fn granted(access: &str, refresh: Option<&str>, expires_in: Option<u64>) -> ExchangeOutcome {
    ExchangeOutcome::Granted(TokenGrant {
        access_token: access.to_string(),
        refresh_token: refresh.map(|r| r.to_string()),
        expires_in,
    })
}

/// A manager whose access token expires at `access` and refresh token at `refresh`.
fn with_expiries(access: u64, refresh: u64) -> Auth {
    let mut auth = manager();
    auth.set_access_token_unchecked("at".to_string());
    auth.set_refresh_token_unchecked("rt".to_string());
    auth.set_expires_at_unchecked(access);
    auth.set_refresh_expires_at_unchecked(refresh);
    auth
}

#[test]
fn new_manager_is_unauthenticated() {
    let auth = manager();
    assert!(!auth.is_access_valid());
    assert!(!auth.is_refresh_valid());
    assert!(!auth.is_access_valid_at(0));
    assert!(!auth.is_refresh_valid_at(0));
    assert_eq!(auth.phase_at(12345), AuthPhase::Unauthenticated);
    assert_eq!(auth.access_token(), None);
    assert_eq!(auth.refresh_token(), None);
    assert_eq!(auth.expires_at(), None);
    assert_eq!(auth.refresh_expires_at(), None);
    assert_eq!(auth.client_id(), "client");
    assert_eq!(auth.client_secret(), "secret");
    assert_eq!(auth.redirect_url(), REDIRECT);
    assert!(!auth.refresh_in_flight());
    assert_eq!(auth.pending_state(), None);
}

#[test]
fn new_rejects_a_redirect_url_that_does_not_parse() {
    let r = Auth::new("client".to_string(), "secret".to_string(), "not a url".to_string());
    assert!(matches!(r, Err(TokenError::Parse(_))));
}

#[test]
fn expiry_without_token_is_not_validity() {
    let mut auth = manager();
    auth.set_expires_at_unchecked(1_000);
    auth.set_refresh_expires_at_unchecked(1_000);
    assert!(!auth.is_access_valid_at(10));
    assert!(!auth.is_refresh_valid_at(10));
    assert_eq!(auth.phase_at(10), AuthPhase::Unauthenticated);
}

#[test]
fn validity_is_strictly_before_expiry() {
    let auth = with_expiries(100, 200);
    assert!(auth.is_access_valid_at(99));
    assert!(!auth.is_access_valid_at(100));
    assert!(auth.is_refresh_valid_at(199));
    assert!(!auth.is_refresh_valid_at(200));
    assert_eq!(auth.phase_at(99), AuthPhase::AccessValid);
    assert_eq!(auth.phase_at(100), AuthPhase::AccessExpiredRefreshValid);
    assert_eq!(auth.phase_at(200), AuthPhase::BothExpired);
}

#[test]
fn refresh_without_refresh_token_fails_and_changes_nothing() {
    let mut auth = manager();
    auth.set_access_token_unchecked("at".to_string());
    auth.set_expires_at_unchecked(50);
    let r = auth.refresh();
    assert!(matches!(r, Err(TokenError::Refresh)));
    assert_eq!(auth.access_token(), Some("at".to_string()));
    assert_eq!(auth.refresh_token(), None);
    assert_eq!(auth.expires_at(), Some(50));
    assert_eq!(auth.refresh_expires_at(), None);
    assert!(!auth.refresh_in_flight());
    // a second failed refresh finds the same state
    assert!(matches!(auth.refresh(), Err(TokenError::Refresh)));
    assert_eq!(auth.expires_at(), Some(50));
}

#[test]
fn try_refresh_with_expired_access_refreshes_once() {
    let now = 1_000_000;
    let mut auth = with_expiries(now - 1, now + 1000);
    let mut exchanges = 0;
    match auth.try_refresh_at(now).unwrap() {
        RefreshDecision::Exchange(exchange) => {
            assert_eq!(exchange.refresh_token, "rt");
            exchanges += 1;
            let r = auth.complete_refresh(granted("at2", Some("rt2"), Some(3600)), now);
            assert_eq!(r, Ok(()));
        }
        _ => panic!("expected an exchange"),
    }
    assert_eq!(exchanges, 1);
    assert!(matches!(auth.try_refresh_at(now), Ok(RefreshDecision::AccessValid)));
    assert_eq!(auth.access_token(), Some("at2".to_string()));
    assert_eq!(auth.refresh_token(), Some("rt2".to_string()));
    assert_eq!(auth.expires_at(), Some(now + 3600));
    assert_eq!(auth.refresh_expires_at(), Some(now + 31 * 24 * 60 * 60));
    assert_eq!(REFRESH_VALIDITY_SECONDS, 2_678_400);
}

#[test]
fn try_refresh_with_both_expired_fails_without_exchange() {
    let now = 1_000_000;
    let mut auth = with_expiries(now - 10, now - 5);
    let r = auth.try_refresh_at(now);
    assert!(matches!(r, Err(TokenError::RefreshExpired)));
    assert!(!auth.refresh_in_flight());
    assert_eq!(auth.access_token(), Some("at".to_string()));
    assert_eq!(auth.expires_at(), Some(now - 10));
}

#[test]
fn try_refresh_with_valid_access_does_nothing() {
    let mut auth = with_expiries(500, 400);
    assert!(matches!(auth.try_refresh_at(499), Ok(RefreshDecision::AccessValid)));
    assert!(!auth.refresh_in_flight());
}

#[test]
fn two_callers_share_one_refresh_exchange() {
    let now = 2_000;
    let mut auth = with_expiries(now - 1, now + 1000);
    let first = auth.try_refresh_at(now).unwrap();
    let second = auth.try_refresh_at(now + 1).unwrap();
    let exchange = match first {
        RefreshDecision::Exchange(exchange) => exchange,
        _ => panic!("the first caller gets the exchange"),
    };
    assert!(matches!(second, RefreshDecision::InFlight));
    assert!(auth.refresh_in_flight());
    assert_eq!(exchange.refresh_token, "rt");
    assert_eq!(auth.complete_refresh(granted("new", None, Some(60)), now + 2), Ok(()));
    assert!(!auth.refresh_in_flight());
    // both callers find a valid token afterwards
    assert!(matches!(auth.try_refresh_at(now + 2), Ok(RefreshDecision::AccessValid)));
    assert!(matches!(auth.try_refresh_at(now + 3), Ok(RefreshDecision::AccessValid)));
    // the provider did not rotate the refresh token: it stays
    assert_eq!(auth.refresh_token(), Some("rt".to_string()));
    assert_eq!(auth.expires_at(), Some(now + 62));
}

#[test]
fn failed_refresh_keeps_tokens_and_clears_the_mark() {
    let mut auth = with_expiries(10, 1000);
    assert!(matches!(auth.try_refresh_at(20), Ok(RefreshDecision::Exchange(_))));
    let r = auth.complete_refresh(ExchangeOutcome::Failed, 21);
    assert_eq!(r, Err(TokenError::Access));
    assert_eq!(auth.access_token(), Some("at".to_string()));
    assert_eq!(auth.refresh_token(), Some("rt".to_string()));
    assert_eq!(auth.expires_at(), Some(10));
    assert_eq!(auth.refresh_expires_at(), Some(1000));
    assert!(!auth.refresh_in_flight());
    // the refresh is due again
    assert!(matches!(auth.try_refresh_at(22), Ok(RefreshDecision::Exchange(_))));
}

#[test]
fn grant_without_lifetime_is_an_error() {
    let mut auth = with_expiries(10, 1000);
    let r = auth.complete_refresh(granted("x", Some("y"), None), 5);
    assert_eq!(r, Err(TokenError::ExpiresInMissing));
    assert_eq!(auth.access_token(), Some("at".to_string()));
    assert_eq!(auth.expires_at(), Some(10));
    let r = auth.complete_authorization(granted("x", Some("y"), None), 5);
    assert_eq!(r, Err(TokenError::ExpiresInMissing));
    assert_eq!(auth.access_token(), Some("at".to_string()));
    assert_eq!(auth.refresh_token(), Some("rt".to_string()));
}

#[test]
fn expiry_is_held_at_the_largest_instant() {
    let mut auth = manager();
    let r = auth.complete_authorization(granted("a", Some("r"), Some(u64::MAX)), 5);
    assert_eq!(r, Ok(()));
    assert_eq!(auth.expires_at(), Some(u64::MAX));
    assert_eq!(auth.refresh_expires_at(), Some(5 + 2_678_400));
    assert_eq!(mal_api::auth::expiry_from(u64::MAX - 1, 1), u64::MAX);
    assert_eq!(mal_api::auth::expiry_from(u64::MAX - 1, 2), u64::MAX);
    assert_eq!(mal_api::auth::expiry_from(7, 8), 15);
}

#[test]
fn authorization_round_trip() {
    let mut auth = manager();
    auth.add_scope("read".to_string());
    auth.add_scope("write:users".to_string());
    assert_eq!(auth.scopes(), vec!["read".to_string(), "write:users".to_string()]);
    let verifier = "A".repeat(43);
    let request = auth.authorize_with("state-1".to_string(), verifier.clone());
    assert_eq!(request.csrf_state, "state-1");
    assert_eq!(auth.pending_state(), Some("state-1".to_string()));
    let url = request.authorization_url;
    assert!(url.starts_with("https://myanimelist.net/v1/oauth2/authorize?response_type=code"));
    assert!(url.contains("client_id=client"));
    assert!(url.contains("state=state-1"));
    assert!(url.contains("code_challenge_method=S256"));
    assert!(url.contains("redirect_uri=http%3A%2F%2Flocalhost%3A8080%2Fcallback"));
    assert!(url.contains("scope=read+write%3Ausers"));
    // the challenge is the transformed verifier, never the verifier itself
    assert!(url.contains("code_challenge="));
    assert!(!url.contains(&verifier));

    let exchange = auth.authorize_finish("state-1".to_string(), "code-9".to_string()).unwrap();
    assert_eq!(exchange.code, "code-9");
    assert_eq!(exchange.pkce_verifier, verifier);
    assert_eq!(auth.pending_state(), None);

    let now = 10_000;
    assert_eq!(auth.complete_authorization(granted("at", Some("rt"), Some(100)), now), Ok(()));
    assert!(auth.is_access_valid_at(now));
    assert!(auth.is_access_valid_at(now + 99));
    assert!(!auth.is_access_valid_at(now + 100));
    assert!(auth.is_refresh_valid_at(now + 100));
    assert_eq!(auth.phase_at(now), AuthPhase::AccessValid);
    assert_eq!(auth.phase_at(now + 100), AuthPhase::AccessExpiredRefreshValid);
    assert_eq!(auth.phase_at(now + 2_678_400), AuthPhase::BothExpired);
}

#[test]
fn state_mismatch_hands_out_no_exchange_and_keeps_the_request() {
    let mut auth = manager();
    let verifier = "b".repeat(64);
    auth.authorize_with("Secret-State".to_string(), verifier.clone());
    for wrong in ["Secret-Stata", "secret-State", "Secret-Stat", "Secret-State ", ""] {
        let r = auth.authorize_finish(wrong.to_string(), "code".to_string());
        assert!(matches!(r, Err(TokenError::StateMismatch)));
        assert_eq!(auth.pending_state(), Some("Secret-State".to_string()));
        assert_eq!(auth.access_token(), None);
    }
    // with the right state the same request can still be finished
    let exchange = auth.authorize_finish("Secret-State".to_string(), "code".to_string()).unwrap();
    assert_eq!(exchange.pkce_verifier, verifier);
}

#[test]
fn finish_without_authorize_is_a_usage_error() {
    let mut auth = manager();
    let r = auth.authorize_finish("s".to_string(), "c".to_string());
    assert!(matches!(r, Err(TokenError::PkceCodeVerifierMissing)));
    // a finished authorization cannot be finished again
    auth.authorize_with("s".to_string(), "v".repeat(50));
    assert!(auth.authorize_finish("s".to_string(), "c".to_string()).is_ok());
    let r = auth.authorize_finish("s".to_string(), "c".to_string());
    assert!(matches!(r, Err(TokenError::PkceCodeVerifierMissing)));
}

#[test]
fn a_new_authorization_replaces_the_pending_one() {
    let mut auth = manager();
    auth.authorize_with("first".to_string(), "v".repeat(43));
    auth.authorize_with("second".to_string(), "w".repeat(43));
    let r = auth.authorize_finish("first".to_string(), "c".to_string());
    assert!(matches!(r, Err(TokenError::StateMismatch)));
    let exchange = auth.authorize_finish("second".to_string(), "c".to_string()).unwrap();
    assert_eq!(exchange.pkce_verifier, "w".repeat(43));
}

#[test]
fn failed_code_exchange_leaves_tokens_untouched() {
    let mut auth = with_expiries(100, 200);
    assert_eq!(auth.complete_authorization(ExchangeOutcome::Failed, 50), Err(TokenError::Access));
    assert_eq!(auth.access_token(), Some("at".to_string()));
    assert_eq!(auth.refresh_token(), Some("rt".to_string()));
    assert_eq!(auth.expires_at(), Some(100));
    assert_eq!(auth.refresh_expires_at(), Some(200));
}

#[test]
fn random_authorization_is_fresh_each_time() {
    let mut auth = manager();
    let a = auth.authorize();
    let pending = auth.pending_state().unwrap();
    assert_eq!(pending, a.csrf_state);
    // 128 bits as URL-safe base64 without padding
    assert_eq!(a.csrf_state.len(), 22);
    assert!(a.csrf_state.chars().all(|c| c.is_ascii_alphanumeric() || c == '-' || c == '_'));
    let b = auth.authorize();
    assert_ne!(a.csrf_state, b.csrf_state);
    assert_ne!(a.authorization_url, b.authorization_url);
    let exchange = auth.authorize_finish(b.csrf_state.clone(), "code".to_string()).unwrap();
    assert_eq!(exchange.pkce_verifier.len(), 43);
    assert!(!b.authorization_url.contains(&exchange.pkce_verifier));
}

#[test]
fn snapshot_round_trip_keeps_validity() {
    let auth = with_expiries(100, 200);
    let tokens = auth.to_tokens();
    assert_eq!(tokens.access_token, Some("at".to_string()));
    assert_eq!(tokens.refresh_token, Some("rt".to_string()));
    assert_eq!(tokens.expires_at, 100);
    assert_eq!(tokens.refresh_expires_at, 200);
    let restored =
        tokens.to_auth("client".to_string(), "secret".to_string(), REDIRECT.to_string()).unwrap();
    for now in [0, 99, 100, 150, 199, 200, 201, u64::MAX] {
        assert_eq!(restored.is_access_valid_at(now), auth.is_access_valid_at(now));
        assert_eq!(restored.is_refresh_valid_at(now), auth.is_refresh_valid_at(now));
        assert_eq!(restored.phase_at(now), auth.phase_at(now));
    }
    let again = tokens
        .into_auth("client".to_string(), "secret".to_string(), REDIRECT.to_string())
        .unwrap();
    assert_eq!(again.refresh_expires_at(), Some(200));
}

#[test]
fn snapshot_of_an_empty_manager_restores_to_nothing_valid() {
    let tokens = manager().to_tokens();
    assert_eq!(tokens.access_token, None);
    assert_eq!(tokens.refresh_token, None);
    assert_eq!(tokens.expires_at, 0);
    assert_eq!(tokens.refresh_expires_at, 0);
    let d = AuthTokens::default();
    assert_eq!(d.access_token, None);
    assert_eq!(d.expires_at, 0);
    let restored =
        d.to_auth("client".to_string(), "secret".to_string(), REDIRECT.to_string()).unwrap();
    assert!(!restored.is_access_valid_at(0));
    assert!(!restored.is_refresh_valid_at(0));
    assert_eq!(restored.phase_at(0), AuthPhase::Unauthenticated);
    let bad = d.to_auth("c".to_string(), "s".to_string(), "::".to_string());
    assert!(matches!(bad, Err(TokenError::Parse(_))));
}

#[test]
fn expires_in_counts_from_the_clock() {
    let mut auth = manager();
    auth.set_access_token_unchecked("at".to_string());
    auth.set_refresh_token_unchecked("rt".to_string());
    let before = mal_api::auth::now_utc_seconds();
    auth.set_expires_in_unchecked(1000);
    auth.set_refresh_expires_in_unchecked(2000);
    let after = mal_api::auth::now_utc_seconds();
    // the clock is this century's
    assert!(before > 1_600_000_000);
    let e = auth.expires_at().unwrap();
    assert!(before + 1000 <= e && e <= after + 1000);
    let r = auth.refresh_expires_at().unwrap();
    assert!(before + 2000 <= r && r <= after + 2000);
    assert!(auth.is_access_valid());
    assert!(auth.is_refresh_valid());
    assert!(matches!(auth.try_refresh(), Ok(RefreshDecision::AccessValid)));
    auth.set_expires_at_unchecked(1);
    assert!(!auth.is_access_valid());
    assert!(matches!(auth.try_refresh(), Ok(RefreshDecision::Exchange(_))));
    assert!(matches!(auth.try_refresh(), Ok(RefreshDecision::InFlight)));
    auth.set_refresh_expires_at_unchecked(1);
    assert!(matches!(auth.try_refresh(), Err(TokenError::RefreshExpired)));
}

#[test]
fn a_token_without_lifetime_left_is_expired_at_once() {
    let mut auth = manager();
    assert_eq!(auth.complete_authorization(granted("a", Some("r"), Some(0)), 77), Ok(()));
    assert_eq!(auth.expires_at(), Some(77));
    assert!(!auth.is_access_valid_at(77));
    assert!(auth.is_access_valid_at(76));
    assert_eq!(auth.phase_at(77), AuthPhase::AccessExpiredRefreshValid);
    // at the last instant there is nothing can be valid
    let mut auth = manager();
    assert_eq!(auth.complete_authorization(granted("a", Some("r"), Some(5)), u64::MAX), Ok(()));
    assert_eq!(auth.expires_at(), Some(u64::MAX));
    assert!(!auth.is_access_valid_at(u64::MAX));
    assert!(!auth.is_refresh_valid_at(u64::MAX));
}

#[test]
fn authorization_without_refresh_token_stores_none() {
    let mut auth = with_expiries(10, 20);
    assert_eq!(auth.complete_authorization(granted("fresh", None, Some(100)), 1_000), Ok(()));
    assert_eq!(auth.access_token(), Some("fresh".to_string()));
    assert_eq!(auth.refresh_token(), None);
    assert_eq!(auth.refresh_expires_at(), None);
    assert!(auth.is_access_valid_at(1_050));
    assert!(!auth.is_refresh_valid_at(1_050));
    assert!(matches!(auth.try_refresh_at(1_100), Err(TokenError::RefreshExpired)));
    assert!(matches!(auth.refresh(), Err(TokenError::Refresh)));
}

#[test]
fn a_refresh_may_be_begun_while_access_is_valid() {
    let mut auth = with_expiries(1_000, 2_000);
    let exchange = auth.refresh().unwrap();
    assert_eq!(exchange.refresh_token, "rt");
    assert!(auth.refresh_in_flight());
    assert_eq!(auth.complete_refresh(granted("n", Some("m"), Some(10)), 500), Ok(()));
    assert_eq!(auth.expires_at(), Some(510));
    assert_eq!(auth.refresh_token(), Some("m".to_string()));
    assert_eq!(auth.refresh_expires_at(), Some(500 + 2_678_400));
}

#[test]
fn scopes_added_after_authorize_do_not_change_the_request() {
    let mut auth = manager();
    auth.add_scope("a".to_string());
    let first = auth.authorize_with("s".to_string(), "v".repeat(43));
    auth.add_scope("b".to_string());
    let second = auth.authorize_with("s".to_string(), "v".repeat(43));
    assert!(first.authorization_url.ends_with("scope=a"));
    assert!(second.authorization_url.ends_with("scope=a+b"));
    let none = manager().authorize_with("s".to_string(), "v".repeat(43));
    assert!(!none.authorization_url.contains("scope="));
}

#[test]
fn a_token_that_never_expires_is_valid_by_the_clock() {
    let mut auth = with_expiries(u64::MAX, u64::MAX);
    assert!(auth.is_access_valid());
    assert!(auth.is_refresh_valid());
    assert!(matches!(auth.try_refresh(), Ok(RefreshDecision::AccessValid)));
    assert!(matches!(auth.ensure_token(), Ok(TokenDecision::Valid(ref t)) if t == "at"));
    // an expiry that was held at the largest instant is such an expiry
    let mut auth = manager();
    assert_eq!(auth.complete_authorization(granted("a", Some("r"), Some(u64::MAX)), 5), Ok(()));
    assert!(auth.is_access_valid());
    assert!(matches!(auth.try_refresh(), Ok(RefreshDecision::AccessValid)));
    // so is one just above what the clock can give, and none at or below what it gives now
    let mut auth = with_expiries(LAST_CLOCK_INSTANT + 1, 0);
    assert!(auth.is_access_valid());
    assert!(!auth.is_refresh_valid());
    auth.set_expires_at_unchecked(mal_api::auth::now_utc_seconds());
    assert!(!auth.is_access_valid());
    assert_eq!(LAST_CLOCK_INSTANT, i64::MAX as u64);
    assert!(mal_api::auth::now_utc_seconds() <= LAST_CLOCK_INSTANT);
}

#[test]
fn the_access_token_is_handed_out_only_while_it_is_valid() {
    let mut auth = with_expiries(100, 200);
    assert!(matches!(auth.ensure_token_at(99), Ok(TokenDecision::Valid(ref t)) if t == "at"));
    assert!(!auth.refresh_in_flight());
    let exchange = match auth.ensure_token_at(100) {
        Ok(TokenDecision::Exchange(exchange)) => exchange,
        _ => panic!("expected a refresh exchange"),
    };
    assert_eq!(exchange.refresh_token, "rt");
    assert!(matches!(auth.ensure_token_at(150), Ok(TokenDecision::InFlight)));
    assert_eq!(auth.complete_refresh(granted("at2", Some("rt2"), Some(10)), 150), Ok(()));
    assert!(matches!(auth.ensure_token_at(159), Ok(TokenDecision::Valid(ref t)) if t == "at2"));
    assert!(matches!(auth.ensure_token_at(160), Ok(TokenDecision::Exchange(_))));
    let mut auth = with_expiries(100, 200);
    assert!(matches!(auth.ensure_token_at(200), Err(TokenError::RefreshExpired)));
    assert!(matches!(manager().ensure_token_at(0), Err(TokenError::RefreshExpired)));
    assert!(matches!(manager().ensure_token(), Err(TokenError::RefreshExpired)));
    // a stored token without an expiry is not handed out
    let mut auth = manager();
    auth.set_access_token_unchecked("at".to_string());
    assert!(matches!(auth.ensure_token_at(0), Err(TokenError::RefreshExpired)));
}

#[test]
fn the_authorization_url_points_at_the_providers_endpoint() {
    assert_eq!(AUTH_URL, "https://myanimelist.net/v1/oauth2/authorize");
    assert_eq!(TOKEN_URL, "https://myanimelist.net/v1/oauth2/token");
    let mut auth = manager();
    let request = auth.authorize();
    assert!(request.authorization_url.starts_with(AUTH_URL));
    assert_eq!(&request.authorization_url[AUTH_URL.len()..AUTH_URL.len() + 1], "?");
    assert!(request.authorization_url.contains(&request.csrf_state));
}
