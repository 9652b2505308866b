use mal_api::api_request::{
    classify_response, ApiError, ApiRequest, ApiRequestError, Credential, CredentialDecision,
    RequestMethod, CLIENT_ID_HEADER,
};
use mal_api::auth::{Auth, ExchangeOutcome, TokenError, TokenGrant};
use mal_api::query::Param;

fn explained(error: &str, message: &str) -> Option<ApiRequestError> {
    Some(ApiRequestError { error: error.to_string(), message: message.to_string() })
}

fn manager() -> Auth {
    Auth::new("the-client".to_string(), "secret".to_string(), "http://localhost/".to_string())
        .unwrap()
}

#[test]
fn four_statuses_have_a_meaning_of_their_own() {
    assert!(matches!(classify_response(400, None), Err(ApiError::InvalidParameters)));
    assert!(matches!(classify_response(401, None), Err(ApiError::InvalidToken)));
    assert!(matches!(classify_response(403, None), Err(ApiError::Forbidden)));
    assert!(matches!(classify_response(404, None), Err(ApiError::NotFound)));
    // whatever the body says
    assert!(matches!(classify_response(400, explained("e", "m")), Err(ApiError::InvalidParameters)));
    assert!(matches!(classify_response(401, explained("e", "m")), Err(ApiError::InvalidToken)));
    assert!(matches!(classify_response(403, explained("e", "m")), Err(ApiError::Forbidden)));
    assert!(matches!(classify_response(404, explained("e", "m")), Err(ApiError::NotFound)));
}

#[test]
fn ok_without_explanation_is_success() {
    assert!(matches!(classify_response(200, None), Ok(())));
}

#[test]
fn an_explanation_makes_even_200_an_error() {
    match classify_response(200, explained("bad", "very bad")) {
        Err(ApiError::ErrorMessage { status, error, message }) => {
            assert_eq!(status, 200);
            assert_eq!(error, "bad");
            assert_eq!(message, "very bad");
        }
        other => panic!("{:?}", other),
    }
}

#[test]
fn other_statuses_are_errors() {
    assert!(matches!(classify_response(500, None), Err(ApiError::StatusCode(500))));
    assert!(matches!(classify_response(201, None), Err(ApiError::StatusCode(201))));
    assert!(matches!(classify_response(0, None), Err(ApiError::StatusCode(0))));
    match classify_response(503, explained("down", "try later")) {
        Err(ApiError::ErrorMessage { status, error, message }) => {
            assert_eq!(status, 503);
            assert_eq!(error, "down");
            assert_eq!(message, "try later");
        }
        other => panic!("{:?}", other),
    }
}

fn bearer(decision: CredentialDecision) -> String {
    match decision {
        CredentialDecision::Ready(Credential::Bearer(token)) => token,
        _ => panic!("expected a bearer token"),
    }
}

/// A manager whose access token expires at `access` and refresh token at `refresh`.
fn with_expiries(access: u64, refresh: u64) -> Auth {
    let mut auth = manager();
    auth.set_access_token_unchecked("tok".to_string());
    auth.set_refresh_token_unchecked("ref".to_string());
    auth.set_expires_at_unchecked(access);
    auth.set_refresh_expires_at_unchecked(refresh);
    auth
}

#[test]
fn calls_on_behalf_of_the_user_carry_a_valid_access_token() {
    let mut auth = with_expiries(100, 200);
    let call = ApiRequest::get("http://x/".to_string(), true);
    assert_eq!(bearer(call.credential_at(&mut auth, 99).unwrap()), "tok");
    assert!(!auth.refresh_in_flight());
}

#[test]
fn an_expired_access_token_is_refreshed_before_the_call() {
    let mut auth = with_expiries(100, 200);
    let call = ApiRequest::get("http://x/".to_string(), true);
    // the token has expired: it is not handed out, one refresh comes first
    let exchange = match call.credential_at(&mut auth, 100).unwrap() {
        CredentialDecision::Exchange(exchange) => exchange,
        _ => panic!("expected a refresh exchange"),
    };
    assert_eq!(exchange.refresh_token, "ref");
    // while it is in flight, no second one is handed out, and no token
    assert!(matches!(call.credential_at(&mut auth, 101), Ok(CredentialDecision::InFlight)));
    let granted = ExchangeOutcome::Granted(TokenGrant {
        access_token: "new".to_string(),
        refresh_token: None,
        expires_in: Some(50),
    });
    assert_eq!(auth.complete_refresh(granted, 102), Ok(()));
    // the call carries the new token
    assert_eq!(bearer(call.credential_at(&mut auth, 102).unwrap()), "new");
    assert_eq!(bearer(call.credential_at(&mut auth, 151).unwrap()), "new");
    assert!(matches!(call.credential_at(&mut auth, 152), Ok(CredentialDecision::Exchange(_))));
}

#[test]
fn with_both_tokens_expired_the_call_fails_and_nothing_is_sent() {
    let mut auth = with_expiries(100, 200);
    let call = ApiRequest::delete("http://x/".to_string(), true);
    let r = call.credential_at(&mut auth, 200);
    assert!(matches!(r, Err(ApiError::Token(TokenError::RefreshExpired))));
    assert!(!auth.refresh_in_flight());
    assert_eq!(auth.access_token(), Some("tok".to_string()));
    // the same without any token
    let mut auth = manager();
    let r = call.credential_at(&mut auth, 0);
    assert!(matches!(r, Err(ApiError::Token(TokenError::RefreshExpired))));
    let r = call.credential(&mut auth);
    assert!(matches!(r, Err(ApiError::Token(TokenError::RefreshExpired))));
}

#[test]
fn the_clock_decides_between_valid_and_expired() {
    let call = ApiRequest::get("http://x/".to_string(), true);
    // valid at every instant the clock can give
    let mut auth = with_expiries(u64::MAX, 0);
    assert_eq!(bearer(call.credential(&mut auth).unwrap()), "tok");
    // expired long ago, and the refresh token with it
    let mut auth = with_expiries(1, 1);
    assert!(matches!(call.credential(&mut auth), Err(ApiError::Token(TokenError::RefreshExpired))));
    // expired long ago, the refresh token good for ever
    let mut auth = with_expiries(1, u64::MAX);
    assert!(matches!(call.credential(&mut auth), Ok(CredentialDecision::Exchange(_))));
    assert!(matches!(call.credential(&mut auth), Ok(CredentialDecision::InFlight)));
}

#[test]
fn other_calls_carry_the_client_id() {
    let mut auth = manager();
    let call = ApiRequest::get("http://x/".to_string(), false);
    for now in [0, 5, u64::MAX] {
        match call.credential_at(&mut auth, now).unwrap() {
            CredentialDecision::Ready(Credential::ClientId(id)) => assert_eq!(id, "the-client"),
            _ => panic!("expected the client id"),
        }
    }
    auth.set_access_token_unchecked("tok".to_string());
    auth.set_expires_at_unchecked(u64::MAX);
    match call.credential(&mut auth).unwrap() {
        CredentialDecision::Ready(credential) => {
            assert!(credential == Credential::ClientId("the-client".to_string()))
        }
        _ => panic!("expected the client id"),
    }
    assert!(!auth.refresh_in_flight());
    assert_eq!(CLIENT_ID_HEADER, "X-MAL-CLIENT-ID");
}

#[test]
fn only_put_sends_a_form() {
    let form = vec![Param { name: "score".to_string(), value: "7".to_string() }];
    let put = ApiRequest::put("u".to_string(), Some(form.clone()), true);
    assert_eq!(put.method, RequestMethod::Put);
    assert_eq!(put.form(), Some(&form));
    assert!(ApiRequest::put("u".to_string(), None, true).form().is_none());
    let mut get = ApiRequest::get("u".to_string(), false);
    assert_eq!(get.method, RequestMethod::Get);
    get.data = Some(form.clone());
    assert!(get.form().is_none());
    let mut delete = ApiRequest::delete("u".to_string(), true);
    assert_eq!(delete.method, RequestMethod::Delete);
    assert_eq!(delete.url, "u");
    assert!(delete.is_auth);
    delete.data = Some(form);
    assert!(delete.form().is_none());
}
