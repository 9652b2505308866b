//! One call of the catalog's API, described and judged without being made:
//! what is to be sent, with which credential, and what an answer means.

use crate::auth::{
    Auth, AuthView, RefreshExchange, TokenDecision, TokenError, LAST_CLOCK_INSTANT,
};
use crate::query::Param;
use vstd::prelude::*;

verus! {

/// The error of `serde_json`, carried through as an opaque value.
#[verifier::external_type_specification]
#[verifier::external_body]
pub struct ExJsonError(serde_json::Error);

/// The header that carries the client id of a call made without a user.
pub const CLIENT_ID_HEADER: &'static str = "X-MAL-CLIENT-ID";

/// The HTTP status `200 OK`.
pub const STATUS_OK: u16 = 200;

/// The HTTP status `400 Bad Request`.
pub const STATUS_BAD_REQUEST: u16 = 400;

/// The HTTP status `401 Unauthorized`.
pub const STATUS_UNAUTHORIZED: u16 = 401;

/// The HTTP status `403 Forbidden`.
pub const STATUS_FORBIDDEN: u16 = 403;

/// The HTTP status `404 Not Found`.
pub const STATUS_NOT_FOUND: u16 = 404;

/// The HTTP method of a call.
#[derive(Copy, Clone, Debug, PartialEq, Eq, Structural)]
pub enum RequestMethod {
    Get,
    Put,
    Delete,
}

/// What can go wrong with a call.
#[derive(Debug)]
pub enum ApiError {
    /// The transport failed; the text says how.
    ReqwestError(String),
    /// The access token has expired or is not valid.
    InvalidToken,
    /// The API did not accept the parameters.
    InvalidParameters,
    /// Access is forbidden.
    Forbidden,
    /// There is no such thing.
    NotFound,
    /// The API answered with this status and nothing that explains it.
    StatusCode(u16),
    /// The body of the answer is not what was expected.
    ParseError(serde_json::Error),
    /// No access token is stored.
    AccessTokenError,
    /// The API answered with this status and said why.
    ErrorMessage { status: u16, error: String, message: String },
    /// The parameters cannot be written as a query string.
    QuerySerError(serde_qs::Error),
    /// A call on behalf of the user was asked for, and the token manager has
    /// no valid token for it and cannot get one.
    Token(TokenError),
}

/// The explanation that the API puts into the body of an answer.
#[derive(Debug, Clone)]
pub struct ApiRequestError {
    pub error: String,
    pub message: String,
}

/// What a call shows to be let in.
#[derive(Clone, PartialEq, Eq)]
pub enum Credential {
    /// The user's access token, sent as a bearer token.
    Bearer(String),
    /// The client id, sent in the header [`CLIENT_ID_HEADER`].
    ClientId(String),
}

/// What has to happen before a call can be sent.
pub enum CredentialDecision {
    /// Nothing: the call can be sent with this credential.
    Ready(Credential),
    /// This refresh exchange has to be performed and its outcome reported to
    /// the token manager; then the question is asked again.
    Exchange(RefreshExchange),
    /// A refresh exchange is in flight: wait for its outcome, and ask again.
    InFlight,
}

/// That `r` is what is decided at `now` on the credential of a call, for the
/// token manager `before`, and `after` the manager that the decision leaves.
/// A call that is not made on behalf of the user shows the client id and
/// leaves the manager alone. A call on behalf of the user shows the access
/// token where that is valid at `now`, and only there; without it, it asks
/// for the one refresh exchange, or to wait for it, or fails with the token
/// manager's `RefreshExpired` where neither token is valid, so that nothing
/// is sent.
pub open spec fn credential_decided(
    is_auth: bool,
    before: AuthView,
    after: AuthView,
    r: Result<CredentialDecision, ApiError>,
    now: u64,
) -> bool {
    match r {
        Ok(CredentialDecision::Ready(Credential::ClientId(id))) => !is_auth && id@
            == before.client_id && after == before,
        Ok(CredentialDecision::Ready(Credential::Bearer(token))) => is_auth
            && before.tokens.access_valid_at(now) && before.tokens.access_token == Some(token@)
            && after == before,
        Ok(CredentialDecision::Exchange(exchange)) => is_auth && before.wants_exchange_at(now)
            && before.tokens.refresh_token == Some(exchange.refresh_token@) && after
            == before.with_in_flight(true),
        Ok(CredentialDecision::InFlight) => is_auth && before.awaits_exchange_at(now) && after
            == before,
        Err(e) => is_auth && e == ApiError::Token(TokenError::RefreshExpired)
            && !before.tokens.access_valid_at(now) && !before.tokens.refresh_valid_at(now)
            && after == before,
    }
}

/// A call of the API: method, URL, the form that goes with it, and whether it
/// is made on behalf of the user.
#[derive(Debug, Clone)]
pub struct ApiRequest {
    pub method: RequestMethod,
    pub url: String,
    /// The fields of the form. Only a `Put` sends them.
    pub data: Option<Vec<Param>>,
    /// Whether the call carries the user's access token. Otherwise it carries
    /// the client id.
    pub is_auth: bool,
}

/// What an answer with the given status means, where `error` is the API's
/// explanation if the body holds one. Four statuses have a meaning of their
/// own whatever the body says. Any other status than `200` is an error, with
/// the explanation where there is one. A `200` is an error too where the body
/// holds an explanation.
pub open spec fn verdict(status: u16, error: Option<ApiRequestError>) -> Result<(), ApiError> {
    if status == STATUS_BAD_REQUEST {
        Err(ApiError::InvalidParameters)
    } else if status == STATUS_UNAUTHORIZED {
        Err(ApiError::InvalidToken)
    } else if status == STATUS_FORBIDDEN {
        Err(ApiError::Forbidden)
    } else if status == STATUS_NOT_FOUND {
        Err(ApiError::NotFound)
    } else {
        match error {
            Some(e) => Err(ApiError::ErrorMessage { status, error: e.error, message: e.message }),
            None => if status == STATUS_OK {
                Ok(())
            } else {
                Err(ApiError::StatusCode(status))
            },
        }
    }
}

/// Judges an answer by its status and by the explanation in its body, if it
/// holds one. `Ok` means that the body is the value that was asked for.
pub fn classify_response(status: u16, error: Option<ApiRequestError>) -> (r: Result<(), ApiError>)
    ensures
        r == verdict(status, error),
{
    if status == STATUS_BAD_REQUEST {
        Err(ApiError::InvalidParameters)
    } else if status == STATUS_UNAUTHORIZED {
        Err(ApiError::InvalidToken)
    } else if status == STATUS_FORBIDDEN {
        Err(ApiError::Forbidden)
    } else if status == STATUS_NOT_FOUND {
        Err(ApiError::NotFound)
    } else {
        match error {
            Some(e) => Err(ApiError::ErrorMessage { status, error: e.error, message: e.message }),
            None => if status == STATUS_OK {
                Ok(())
            } else {
                Err(ApiError::StatusCode(status))
            },
        }
    }
}

impl ApiRequest {
    /// A call that reads.
    pub fn get(url: String, is_auth: bool) -> (call: ApiRequest)
        ensures
            call == (ApiRequest { method: RequestMethod::Get, url, data: None, is_auth }),
    {
        ApiRequest { method: RequestMethod::Get, url, data: None, is_auth }
    }

    /// A call that deletes.
    pub fn delete(url: String, is_auth: bool) -> (call: ApiRequest)
        ensures
            call == (ApiRequest { method: RequestMethod::Delete, url, data: None, is_auth }),
    {
        ApiRequest { method: RequestMethod::Delete, url, data: None, is_auth }
    }

    /// A call that writes the fields of a form.
    pub fn put(url: String, data: Option<Vec<Param>>, is_auth: bool) -> (call: ApiRequest)
        ensures
            call == (ApiRequest { method: RequestMethod::Put, url, data, is_auth }),
    {
        ApiRequest { method: RequestMethod::Put, url, data, is_auth }
    }

    /// The form that this call sends: its data where it is a `Put`, else none.
    pub fn form(&self) -> (form: Option<&Vec<Param>>)
        ensures
            match form {
                Some(fields) => self.method == RequestMethod::Put && self.data == Some(*fields),
                None => self.method != RequestMethod::Put || self.data is None,
            },
    {
        match (self.method, &self.data) {
            (RequestMethod::Put, Some(fields)) => Some(fields),
            _ => None,
        }
    }

    /// Decides at `now` what this call shows to be let in, and what has to
    /// happen before. A call that is not made on behalf of the user shows the
    /// client id. A call on behalf of the user shows the access token where it
    /// is valid at `now`, and only there; else a refresh has to come first,
    /// or, where neither token is valid, the call fails and is not sent.
    pub fn credential_at(&self, auth: &mut Auth, now: u64) -> (r: Result<
        CredentialDecision,
        ApiError,
    >)
        ensures
            credential_decided(self.is_auth, old(auth)@, final(auth)@, r, now),
    {
        if self.is_auth {
            match auth.ensure_token_at(now) {
                Ok(TokenDecision::Valid(token)) => Ok(
                    CredentialDecision::Ready(Credential::Bearer(token)),
                ),
                Ok(TokenDecision::Exchange(exchange)) => Ok(CredentialDecision::Exchange(exchange)),
                Ok(TokenDecision::InFlight) => Ok(CredentialDecision::InFlight),
                Err(e) => Err(ApiError::Token(e)),
            }
        } else {
            Ok(CredentialDecision::Ready(Credential::ClientId(auth.client_id())))
        }
    }

    /// [`ApiRequest::credential_at`] at the moment of the call: what it
    /// decides for some instant that the clock can give. Whatever the clock
    /// says: a call that is not made on behalf of the user shows the client
    /// id; a call on behalf of the user shows the access token where that is
    /// valid at the last instant the clock can give, and never shows any
    /// other token than the stored one.
    pub fn credential(&self, auth: &mut Auth) -> (r: Result<CredentialDecision, ApiError>)
        ensures
            exists|now: u64|
                now <= LAST_CLOCK_INSTANT && #[trigger] credential_decided(
                    self.is_auth,
                    old(auth)@,
                    final(auth)@,
                    r,
                    now,
                ),
            !self.is_auth ==> r is Ok && r->Ok_0 is Ready && r->Ok_0->Ready_0 is ClientId,
            self.is_auth && old(auth)@.tokens.access_valid_at(LAST_CLOCK_INSTANT) ==> r is Ok
                && r->Ok_0 is Ready && r->Ok_0->Ready_0 is Bearer,
            r is Ok && r->Ok_0 is Ready && r->Ok_0->Ready_0 is Bearer
                ==> old(auth)@.tokens.access_token == Some(r->Ok_0->Ready_0->Bearer_0@),
    {
        let now = crate::auth::now_utc_seconds();
        let r = self.credential_at(auth, now);
        assert(credential_decided(self.is_auth, old(auth)@, auth@, r, now));
        r
    }
}

} // verus!
