//! The OAuth2 token-lifecycle manager.
//!
//! The manager never talks to the network. Each operation that needs an
//! exchange with the provider's token endpoint comes in two halves: one that
//! decides and hands out what has to be sent, and one that takes the outcome
//! of the exchange and applies it. Whoever owns the manager performs the
//! exchange in between.

use crate::provider::{
    auth_url_parse, authorization_url_text, build_authorization_url, csrf_state_shape,
    parse_auth_url, parse_redirect_url, pkce_verifier_length_ok, random_csrf_state,
    random_pkce_verifier, redirect_url_parse, utc_timestamp,
};
use oauth2::url::ParseError;
use vstd::prelude::*;

verus! {

/// The provider's authorization endpoint.
pub const AUTH_URL: &'static str = "https://myanimelist.net/v1/oauth2/authorize";

/// The provider's token endpoint.
pub const TOKEN_URL: &'static str = "https://myanimelist.net/v1/oauth2/token";

/// The last instant that the clock can give, in seconds since the Unix epoch.
pub const LAST_CLOCK_INSTANT: u64 = 0x7fff_ffff_ffff_ffff;

/// How many days a refresh token is taken to be valid for after it was issued.
pub const REFRESH_VALIDITY_DAYS: u64 = 31;

/// [`REFRESH_VALIDITY_DAYS`] in seconds.
pub const REFRESH_VALIDITY_SECONDS: u64 = 31 * 24 * 60 * 60;

/// What can go wrong in the token manager.
#[non_exhaustive]
#[derive(Debug, PartialEq)]
pub enum TokenError {
    /// The caller's authorization callback failed.
    Callback(String),
    /// Neither the access token nor the refresh token is valid any more.
    RefreshExpired,
    /// An error reported by the OAuth2 layer, as text.
    OAuth2(String),
    /// A refresh was asked for while no refresh token is stored.
    Refresh,
    /// The provider rejected a token exchange, or the exchange did not get through.
    Access,
    /// The redirect URL does not parse.
    Parse(ParseError),
    /// The state that came back with the redirect is not the one that was issued.
    StateMismatch,
    /// An authorization was finished that was never begun.
    PkceCodeVerifierMissing,
    /// The provider granted a token without saying how long it lives.
    ExpiresInMissing,
}

/// The instant `seconds` after `now`, held at the largest instant there is.
pub open spec fn expiry_after(now: u64, seconds: u64) -> u64 {
    if now + seconds <= u64::MAX {
        (now + seconds) as u64
    } else {
        u64::MAX
    }
}

/// The text of an optional string.
pub open spec fn opt_text(s: Option<String>) -> Option<Seq<char>> {
    match s {
        Some(s) => Some(s@),
        None => None,
    }
}

/// Where a manager stands at some instant.
#[derive(Debug, Clone, Copy, PartialEq, Eq, Structural)]
pub enum AuthPhase {
    /// No token is stored.
    Unauthenticated,
    /// The access token is present and has not expired.
    AccessValid,
    /// The access token is of no use, the refresh token is.
    AccessExpiredRefreshValid,
    /// Tokens are stored and none is of use.
    BothExpired,
}

/// The mathematical value of a [`TokenState`].
pub struct TokenStateView {
    pub access_token: Option<Seq<char>>,
    pub refresh_token: Option<Seq<char>>,
    pub access_expires_at: Option<u64>,
    pub refresh_expires_at: Option<u64>,
}

/// The mathematical value of a [`TokenGrant`].
pub struct TokenGrantView {
    pub access_token: Seq<char>,
    pub refresh_token: Option<Seq<char>>,
    pub expires_in: Option<u64>,
}

impl TokenStateView {
    /// The state of a manager that has never been authorized.
    pub open spec fn empty() -> TokenStateView {
        TokenStateView {
            access_token: None,
            refresh_token: None,
            access_expires_at: None,
            refresh_expires_at: None,
        }
    }

    /// An access token is present and `now` lies before its expiry.
    pub open spec fn access_valid_at(self, now: u64) -> bool {
        self.access_token is Some && self.access_expires_at is Some && now
            < self.access_expires_at->0
    }

    /// A refresh token is present and `now` lies before its expiry.
    pub open spec fn refresh_valid_at(self, now: u64) -> bool {
        self.refresh_token is Some && self.refresh_expires_at is Some && now
            < self.refresh_expires_at->0
    }

    /// No token is stored at all.
    pub open spec fn unauthenticated(self) -> bool {
        self.access_token is None && self.refresh_token is None
    }

    /// Where the manager stands at `now`.
    pub open spec fn phase_at(self, now: u64) -> AuthPhase {
        if self.access_valid_at(now) {
            AuthPhase::AccessValid
        } else if self.refresh_valid_at(now) {
            AuthPhase::AccessExpiredRefreshValid
        } else if self.unauthenticated() {
            AuthPhase::Unauthenticated
        } else {
            AuthPhase::BothExpired
        }
    }

    /// The state after an authorization-code exchange that succeeded at `now`
    /// and granted a token living `expires_in` seconds.
    pub open spec fn authorized(
        grant: TokenGrantView,
        expires_in: u64,
        now: u64,
    ) -> TokenStateView {
        TokenStateView {
            access_token: Some(grant.access_token),
            refresh_token: grant.refresh_token,
            access_expires_at: Some(expiry_after(now, expires_in)),
            refresh_expires_at: if grant.refresh_token is Some {
                Some(expiry_after(now, REFRESH_VALIDITY_SECONDS))
            } else {
                None
            },
        }
    }

    /// The state after a refresh exchange that succeeded at `now` and granted a
    /// token living `expires_in` seconds.
    pub open spec fn refreshed(
        self,
        grant: TokenGrantView,
        expires_in: u64,
        now: u64,
    ) -> TokenStateView {
        TokenStateView {
            access_token: Some(grant.access_token),
            refresh_token: if grant.refresh_token is Some {
                grant.refresh_token
            } else {
                self.refresh_token
            },
            access_expires_at: Some(expiry_after(now, expires_in)),
            refresh_expires_at: Some(expiry_after(now, REFRESH_VALIDITY_SECONDS)),
        }
    }
}

/// The tokens a manager holds and the instants, in seconds since the Unix
/// epoch, at which they expire. A token that is absent is never valid, whatever
/// expiry is stored beside it.
#[derive(Clone)]
pub struct TokenState {
    pub access_token: Option<String>,
    pub refresh_token: Option<String>,
    pub access_expires_at: Option<u64>,
    pub refresh_expires_at: Option<u64>,
}

impl View for TokenState {
    type V = TokenStateView;

    open spec fn view(&self) -> TokenStateView {
        TokenStateView {
            access_token: opt_text(self.access_token),
            refresh_token: opt_text(self.refresh_token),
            access_expires_at: self.access_expires_at,
            refresh_expires_at: self.refresh_expires_at,
        }
    }
}

/// What the token endpoint grants on a successful exchange.
#[derive(Clone)]
pub struct TokenGrant {
    pub access_token: String,
    /// The refresh token, where the provider issued or rotated one.
    pub refresh_token: Option<String>,
    /// The lifetime of the access token in seconds, where the provider gave it.
    pub expires_in: Option<u64>,
}

impl View for TokenGrant {
    type V = TokenGrantView;

    open spec fn view(&self) -> TokenGrantView {
        TokenGrantView {
            access_token: self.access_token@,
            refresh_token: opt_text(self.refresh_token),
            expires_in: self.expires_in,
        }
    }
}

/// How an exchange with the token endpoint ended.
#[derive(Clone)]
pub enum ExchangeOutcome {
    /// The provider granted tokens.
    Granted(TokenGrant),
    /// The provider refused, or the request did not get through.
    Failed,
}

/// `now` plus `seconds`, held at `u64::MAX`.
pub fn expiry_from(now: u64, seconds: u64) -> (expiry: u64)
    ensures
        expiry == expiry_after(now, seconds),
{
    now.saturating_add(seconds)
}

/// Copies an optional string.
pub fn clone_opt_text(s: &Option<String>) -> (r: Option<String>)
    ensures
        opt_text(r) == opt_text(*s),
{
    match s {
        Some(t) => Some(t.clone()),
        None => None,
    }
}

impl TokenState {
    /// The state of a manager that has never been authorized.
    pub fn empty() -> (state: TokenState)
        ensures
            state@ == TokenStateView::empty(),
    {
        TokenState {
            access_token: None,
            refresh_token: None,
            access_expires_at: None,
            refresh_expires_at: None,
        }
    }

    /// Whether an access token is present and `now` lies before its expiry.
    pub fn access_valid_at(&self, now: u64) -> (valid: bool)
        ensures
            valid == self@.access_valid_at(now),
    {
        match (&self.access_token, self.access_expires_at) {
            (Some(_), Some(expiry)) => now < expiry,
            _ => false,
        }
    }

    /// Whether a refresh token is present and `now` lies before its expiry.
    pub fn refresh_valid_at(&self, now: u64) -> (valid: bool)
        ensures
            valid == self@.refresh_valid_at(now),
    {
        match (&self.refresh_token, self.refresh_expires_at) {
            (Some(_), Some(expiry)) => now < expiry,
            _ => false,
        }
    }

    /// Where the manager stands at `now`.
    pub fn phase_at(&self, now: u64) -> (phase: AuthPhase)
        ensures
            phase == self@.phase_at(now),
    {
        if self.access_valid_at(now) {
            AuthPhase::AccessValid
        } else if self.refresh_valid_at(now) {
            AuthPhase::AccessExpiredRefreshValid
        } else if self.access_token.is_none() && self.refresh_token.is_none() {
            AuthPhase::Unauthenticated
        } else {
            AuthPhase::BothExpired
        }
    }
}

/// A snapshot of a manager's tokens that can be stored between runs and turned
/// back into a manager. It holds no client credentials, scopes or pending
/// authorization.
#[derive(Clone)]
pub struct AuthTokens {
    pub access_token: Option<String>,
    pub refresh_token: Option<String>,
    /// Expiry of the access token in seconds since the Unix epoch.
    pub expires_at: u64,
    /// Expiry of the refresh token in seconds since the Unix epoch.
    pub refresh_expires_at: u64,
}

/// The mathematical value of an [`AuthTokens`].
pub struct AuthTokensView {
    pub access_token: Option<Seq<char>>,
    pub refresh_token: Option<Seq<char>>,
    pub expires_at: u64,
    pub refresh_expires_at: u64,
}

impl View for AuthTokens {
    type V = AuthTokensView;

    open spec fn view(&self) -> AuthTokensView {
        AuthTokensView {
            access_token: opt_text(self.access_token),
            refresh_token: opt_text(self.refresh_token),
            expires_at: self.expires_at,
            refresh_expires_at: self.refresh_expires_at,
        }
    }
}

/// The expiry a snapshot stores: an absent one is stored as the epoch itself,
/// before which no instant lies.
pub open spec fn stored_expiry(expiry: Option<u64>) -> u64 {
    match expiry {
        Some(e) => e,
        None => 0,
    }
}

impl TokenStateView {
    /// The snapshot of this state.
    pub open spec fn snapshot(self) -> AuthTokensView {
        AuthTokensView {
            access_token: self.access_token,
            refresh_token: self.refresh_token,
            expires_at: stored_expiry(self.access_expires_at),
            refresh_expires_at: stored_expiry(self.refresh_expires_at),
        }
    }
}

impl AuthTokensView {
    /// The token state a manager restored from this snapshot starts with.
    pub open spec fn restored(self) -> TokenStateView {
        TokenStateView {
            access_token: self.access_token,
            refresh_token: self.refresh_token,
            access_expires_at: Some(self.expires_at),
            refresh_expires_at: Some(self.refresh_expires_at),
        }
    }
}

impl Default for AuthTokens {
    fn default() -> (tokens: AuthTokens)
        ensures
            tokens@ == TokenStateView::empty().snapshot(),
    {
        AuthTokens { access_token: None, refresh_token: None, expires_at: 0, refresh_expires_at: 0 }
    }
}

/// An authorization that was begun and not yet finished.
pub struct PendingView {
    pub csrf_state: Seq<char>,
    pub pkce_verifier: Seq<char>,
}

/// The mathematical value of an [`Auth`].
pub struct AuthView {
    pub client_id: Seq<char>,
    pub client_secret: Seq<char>,
    pub redirect_url: Seq<char>,
    pub tokens: TokenStateView,
    pub scopes: Seq<Seq<char>>,
    /// The authorization in progress, if any.
    pub pending: Option<PendingView>,
    /// Whether a refresh exchange was handed out and its outcome is still owed.
    pub refresh_in_flight: bool,
}

impl AuthView {
    /// A manager fresh from construction.
    pub open spec fn fresh(
        client_id: Seq<char>,
        client_secret: Seq<char>,
        redirect_url: Seq<char>,
    ) -> AuthView {
        AuthView {
            client_id,
            client_secret,
            redirect_url,
            tokens: TokenStateView::empty(),
            scopes: Seq::empty(),
            pending: None,
            refresh_in_flight: false,
        }
    }

    /// This manager with other tokens.
    pub open spec fn with_tokens(self, tokens: TokenStateView) -> AuthView {
        AuthView { tokens, ..self }
    }

    /// This manager with the in-flight mark set or cleared.
    pub open spec fn with_in_flight(self, refresh_in_flight: bool) -> AuthView {
        AuthView { refresh_in_flight, ..self }
    }

    /// This manager with another pending authorization, or none.
    pub open spec fn with_pending(self, pending: Option<PendingView>) -> AuthView {
        AuthView { pending, ..self }
    }
}

/// What the caller has to show the end user to begin an authorization: the
/// URL to visit and the CSRF state that must come back with the redirect.
#[derive(Clone)]
pub struct AuthorizationRequest {
    pub authorization_url: String,
    pub csrf_state: String,
}

/// An authorization-code exchange that the caller has to perform.
pub struct CodeExchange {
    pub code: String,
    pub pkce_verifier: String,
}

/// A refresh-token exchange that the caller has to perform.
pub struct RefreshExchange {
    pub refresh_token: String,
}

/// What has to happen before a request can carry a valid access token.
pub enum RefreshDecision {
    /// Nothing: the access token is valid.
    AccessValid,
    /// This refresh exchange has to be performed and its outcome reported.
    Exchange(RefreshExchange),
    /// A refresh exchange was handed out before and its outcome is still owed:
    /// wait for it, and ask again.
    InFlight,
}

/// What has to happen before a call can be made on behalf of the user.
pub enum TokenDecision {
    /// Nothing: this is the access token, and it is valid.
    Valid(String),
    /// This refresh exchange has to be performed and its outcome reported.
    Exchange(RefreshExchange),
    /// A refresh exchange was handed out before and its outcome is still owed:
    /// wait for it, and ask again.
    InFlight,
}

struct PendingAuthorization {
    csrf_state: String,
    pkce_verifier: String,
}

/// The current time in seconds since the Unix epoch. Whatever the clock
/// says, it is no later than [`LAST_CLOCK_INSTANT`].
pub fn now_utc_seconds() -> (now: u64)
    ensures
        now <= LAST_CLOCK_INSTANT,
{
    let seconds = utc_timestamp();
    seconds as u64
}

/// The mathematical value of a [`ClientCredentials`].
pub struct CredentialsView {
    pub client_id: Seq<char>,
    pub client_secret: Seq<char>,
    pub redirect_url: Seq<char>,
}

/// What checking the URLs of a new manager gives: the parser's error on the
/// redirect URL where that does not parse, else the parser's error on the
/// provider's authorization endpoint, else success.
pub open spec fn urls_checked(redirect_url: Seq<char>) -> Result<(), ParseError> {
    match redirect_url_parse(redirect_url) {
        Err(e) => Err(e),
        Ok(_) => auth_url_parse(AUTH_URL@),
    }
}

/// What identifies this client to the provider. Fixed at construction; the
/// redirect URL of every value of this type parses as a URL, and so does the
/// provider's authorization endpoint, which is checked when a value is made.
pub struct ClientCredentials {
    client_id: String,
    client_secret: String,
    redirect_url: String,
}

impl View for ClientCredentials {
    type V = CredentialsView;

    closed spec fn view(&self) -> CredentialsView {
        CredentialsView {
            client_id: self.client_id@,
            client_secret: self.client_secret@,
            redirect_url: self.redirect_url@,
        }
    }
}

impl ClientCredentials {
    #[verifier::type_invariant]
    spec fn urls_parse(self) -> bool {
        redirect_url_parse(self.redirect_url@) is Ok && auth_url_parse(AUTH_URL@) is Ok
    }

    /// Checks the redirect URL and the provider's authorization endpoint, and
    /// keeps the three values. Fails with `TokenError::Parse`, and the
    /// parser's own error in it, where one of the two does not parse.
    pub fn new(client_id: String, client_secret: String, redirect_url: String) -> (r: Result<
        ClientCredentials,
        TokenError,
    >)
        ensures
            match r {
                Ok(c) => urls_checked(redirect_url@) is Ok && c@ == (CredentialsView {
                    client_id: client_id@,
                    client_secret: client_secret@,
                    redirect_url: redirect_url@,
                }),
                Err(e) => e is Parse && urls_checked(redirect_url@) == Err::<(), ParseError>(
                    e->Parse_0,
                ),
            },
    {
        match parse_redirect_url(&redirect_url) {
            Ok(_) => match parse_auth_url(AUTH_URL) {
                Ok(_) => Ok(ClientCredentials { client_id, client_secret, redirect_url }),
                Err(e) => Err(TokenError::Parse(e)),
            },
            Err(e) => Err(TokenError::Parse(e)),
        }
    }

    /// The client id.
    pub fn client_id(&self) -> (id: &String)
        ensures
            id@ == self@.client_id,
    {
        &self.client_id
    }

    /// The client secret.
    pub fn client_secret(&self) -> (secret: &String)
        ensures
            secret@ == self@.client_secret,
    {
        &self.client_secret
    }

    /// The redirect URL. It parses as a URL.
    pub fn redirect_url(&self) -> (url: &String)
        ensures
            url@ == self@.redirect_url,
            redirect_url_parse(url@) is Ok,
            auth_url_parse(AUTH_URL@) is Ok,
    {
        proof {
            use_type_invariant(self);
        }
        &self.redirect_url
    }
}

/// Holds the client credentials and the tokens, and decides when they have to
/// be renewed.
pub struct Auth {
    credentials: ClientCredentials,
    tokens: TokenState,
    scopes: Vec<String>,
    pending: Option<PendingAuthorization>,
    refresh_in_flight: bool,
}

impl View for Auth {
    type V = AuthView;

    closed spec fn view(&self) -> AuthView {
        AuthView {
            client_id: self.credentials@.client_id,
            client_secret: self.credentials@.client_secret,
            redirect_url: self.credentials@.redirect_url,
            tokens: self.tokens@,
            scopes: self.scopes.deep_view(),
            pending: match self.pending {
                Some(p) => Some(
                    PendingView { csrf_state: p.csrf_state@, pkce_verifier: p.pkce_verifier@ },
                ),
                None => None,
            },
            refresh_in_flight: self.refresh_in_flight,
        }
    }
}

impl Auth {
    /// A manager without tokens. Fails with `TokenError::Parse`, and the
    /// parser's own error in it, where the redirect URL or the provider's
    /// authorization endpoint does not parse.
    pub fn new(client_id: String, client_secret: String, redirect_url: String) -> (r: Result<
        Auth,
        TokenError,
    >)
        ensures
            match r {
                Ok(auth) => urls_checked(redirect_url@) is Ok && auth@ == AuthView::fresh(
                    client_id@,
                    client_secret@,
                    redirect_url@,
                ),
                Err(e) => e is Parse && urls_checked(redirect_url@) == Err::<(), ParseError>(
                    e->Parse_0,
                ),
            },
    {
        match ClientCredentials::new(client_id, client_secret, redirect_url) {
            Ok(credentials) => {
                let auth = Auth {
                    credentials,
                    tokens: TokenState::empty(),
                    scopes: Vec::new(),
                    pending: None,
                    refresh_in_flight: false,
                };
                assert(auth.scopes.deep_view() =~= Seq::empty());
                Ok(auth)
            },
            Err(e) => Err(e),
        }
    }

    /// The client id.
    pub fn client_id(&self) -> (id: String)
        ensures
            id@ == self@.client_id,
    {
        self.credentials.client_id().clone()
    }

    /// The client secret.
    pub fn client_secret(&self) -> (secret: String)
        ensures
            secret@ == self@.client_secret,
    {
        self.credentials.client_secret().clone()
    }

    /// The redirect URL. It parses as a URL.
    pub fn redirect_url(&self) -> (url: String)
        ensures
            url@ == self@.redirect_url,
            redirect_url_parse(url@) is Ok,
    {
        self.credentials.redirect_url().clone()
    }

    /// The access token, if one is stored.
    pub fn access_token(&self) -> (token: Option<String>)
        ensures
            opt_text(token) == self@.tokens.access_token,
    {
        clone_opt_text(&self.tokens.access_token)
    }

    /// The refresh token, if one is stored.
    pub fn refresh_token(&self) -> (token: Option<String>)
        ensures
            opt_text(token) == self@.tokens.refresh_token,
    {
        clone_opt_text(&self.tokens.refresh_token)
    }

    /// The instant at which the access token expires, if one is stored.
    pub fn expires_at(&self) -> (expiry: Option<u64>)
        ensures
            expiry == self@.tokens.access_expires_at,
    {
        self.tokens.access_expires_at
    }

    /// The instant at which the refresh token expires, if one is stored.
    pub fn refresh_expires_at(&self) -> (expiry: Option<u64>)
        ensures
            expiry == self@.tokens.refresh_expires_at,
    {
        self.tokens.refresh_expires_at
    }

    /// The scopes that the next authorization will ask for, in the order in
    /// which they were added.
    pub fn scopes(&self) -> (scopes: Vec<String>)
        ensures
            scopes.deep_view() == self@.scopes,
    {
        let scopes = self.scopes.clone();
        assert(scopes.deep_view() == self.scopes.deep_view());
        scopes
    }

    /// Whether a refresh exchange was handed out whose outcome is still owed.
    pub fn refresh_in_flight(&self) -> (in_flight: bool)
        ensures
            in_flight == self@.refresh_in_flight,
    {
        self.refresh_in_flight
    }

    /// The CSRF state of the authorization in progress, if there is one.
    pub fn pending_state(&self) -> (state: Option<String>)
        ensures
            match state {
                Some(s) => self@.pending is Some && self@.pending->0.csrf_state == s@,
                None => self@.pending is None,
            },
    {
        match &self.pending {
            Some(p) => Some(p.csrf_state.clone()),
            None => None,
        }
    }
}

impl Auth {
    /// The snapshot of the tokens, to be stored between runs.
    pub fn to_tokens(&self) -> (tokens: AuthTokens)
        ensures
            tokens@ == self@.tokens.snapshot(),
    {
        AuthTokens {
            access_token: clone_opt_text(&self.tokens.access_token),
            refresh_token: clone_opt_text(&self.tokens.refresh_token),
            expires_at: match self.tokens.access_expires_at {
                Some(e) => e,
                None => 0,
            },
            refresh_expires_at: match self.tokens.refresh_expires_at {
                Some(e) => e,
                None => 0,
            },
        }
    }

    /// Stores a refresh token as it is. The caller sees to it that the expiry
    /// stored beside it belongs to it.
    pub fn set_refresh_token_unchecked(&mut self, token: String)
        ensures
            final(self)@ == old(self)@.with_tokens(
                TokenStateView { refresh_token: Some(token@), ..old(self)@.tokens },
            ),
    {
        self.tokens.refresh_token = Some(token);
    }

    /// Stores an access token as it is. The caller sees to it that the expiry
    /// stored beside it belongs to it.
    pub fn set_access_token_unchecked(&mut self, token: String)
        ensures
            final(self)@ == old(self)@.with_tokens(
                TokenStateView { access_token: Some(token@), ..old(self)@.tokens },
            ),
    {
        self.tokens.access_token = Some(token);
    }

    /// Sets the instant at which the access token expires.
    pub fn set_expires_at_unchecked(&mut self, expiry: u64)
        ensures
            final(self)@ == old(self)@.with_tokens(
                TokenStateView { access_expires_at: Some(expiry), ..old(self)@.tokens },
            ),
    {
        self.tokens.access_expires_at = Some(expiry);
    }

    /// Sets the instant at which the refresh token expires.
    pub fn set_refresh_expires_at_unchecked(&mut self, expiry: u64)
        ensures
            final(self)@ == old(self)@.with_tokens(
                TokenStateView { refresh_expires_at: Some(expiry), ..old(self)@.tokens },
            ),
    {
        self.tokens.refresh_expires_at = Some(expiry);
    }

    /// Lets the access token expire `seconds` after the moment of the call.
    /// The expiry is [`expiry_after`] some instant that the clock can give,
    /// and nothing else changes.
    pub fn set_expires_in_unchecked(&mut self, seconds: u64)
        ensures
            exists|now: u64|
                now <= LAST_CLOCK_INSTANT && final(self)@ == old(self)@.with_tokens(
                    TokenStateView {
                        access_expires_at: Some(#[trigger] expiry_after(now, seconds)),
                        ..old(self)@.tokens
                    },
                ),
    {
        let now = now_utc_seconds();
        let expiry = expiry_from(now, seconds);
        assert(expiry == expiry_after(now, seconds));
        self.set_expires_at_unchecked(expiry);
    }

    /// Lets the refresh token expire `seconds` after the moment of the call.
    /// The expiry is [`expiry_after`] some instant that the clock can give,
    /// and nothing else changes.
    pub fn set_refresh_expires_in_unchecked(&mut self, seconds: u64)
        ensures
            exists|now: u64|
                now <= LAST_CLOCK_INSTANT && final(self)@ == old(self)@.with_tokens(
                    TokenStateView {
                        refresh_expires_at: Some(#[trigger] expiry_after(now, seconds)),
                        ..old(self)@.tokens
                    },
                ),
    {
        let now = now_utc_seconds();
        let expiry = expiry_from(now, seconds);
        assert(expiry == expiry_after(now, seconds));
        self.set_refresh_expires_at_unchecked(expiry);
    }

    /// Adds a scope to those the next authorization asks for.
    pub fn add_scope(&mut self, scope: String)
        ensures
            final(self)@ == (AuthView { scopes: old(self)@.scopes.push(scope@), ..old(self)@ }),
    {
        self.scopes.push(scope);
        assert(self.scopes.deep_view() =~= old(self).scopes.deep_view().push(scope@));
    }

    /// Whether the access token is present and valid at `now`.
    pub fn is_access_valid_at(&self, now: u64) -> (valid: bool)
        ensures
            valid == self@.tokens.access_valid_at(now),
            self@.tokens.unauthenticated() ==> !valid,
    {
        self.tokens.access_valid_at(now)
    }

    /// Whether the refresh token is present and valid at `now`.
    pub fn is_refresh_valid_at(&self, now: u64) -> (valid: bool)
        ensures
            valid == self@.tokens.refresh_valid_at(now),
            self@.tokens.unauthenticated() ==> !valid,
    {
        self.tokens.refresh_valid_at(now)
    }

    /// Whether the access token is present and valid at the moment of the
    /// call: the answer of [`Auth::is_access_valid_at`] for some instant that
    /// the clock can give. So a token that is valid at the last such instant
    /// is valid, and an absent one is not.
    pub fn is_access_valid(&self) -> (valid: bool)
        ensures
            exists|now: u64|
                now <= LAST_CLOCK_INSTANT && valid == #[trigger] self@.tokens.access_valid_at(now),
            self@.tokens.access_valid_at(LAST_CLOCK_INSTANT) ==> valid,
            self@.tokens.access_token is None ==> !valid,
            self@.tokens.unauthenticated() ==> !valid,
    {
        self.is_access_valid_at(now_utc_seconds())
    }

    /// Whether the refresh token is present and valid at the moment of the
    /// call: the answer of [`Auth::is_refresh_valid_at`] for some instant that
    /// the clock can give. So a token that is valid at the last such instant
    /// is valid, and an absent one is not.
    pub fn is_refresh_valid(&self) -> (valid: bool)
        ensures
            exists|now: u64|
                now <= LAST_CLOCK_INSTANT && valid == #[trigger] self@.tokens.refresh_valid_at(
                    now,
                ),
            self@.tokens.refresh_valid_at(LAST_CLOCK_INSTANT) ==> valid,
            self@.tokens.refresh_token is None ==> !valid,
            self@.tokens.unauthenticated() ==> !valid,
    {
        self.is_refresh_valid_at(now_utc_seconds())
    }

    /// Where the manager stands at `now`.
    pub fn phase_at(&self, now: u64) -> (phase: AuthPhase)
        ensures
            phase == self@.tokens.phase_at(now),
    {
        self.tokens.phase_at(now)
    }
}

impl AuthView {
    /// At `now` a refresh exchange is due and none is in flight.
    pub open spec fn wants_exchange_at(self, now: u64) -> bool {
        !self.tokens.access_valid_at(now) && self.tokens.refresh_valid_at(now)
            && !self.refresh_in_flight
    }

    /// At `now` a refresh exchange is due and one is in flight already.
    pub open spec fn awaits_exchange_at(self, now: u64) -> bool {
        !self.tokens.access_valid_at(now) && self.tokens.refresh_valid_at(now)
            && self.refresh_in_flight
    }

    /// The manager after the outcome of a refresh exchange was applied at `now`.
    pub open spec fn after_refresh(self, outcome: ExchangeOutcome, now: u64) -> AuthView {
        match outcome {
            ExchangeOutcome::Granted(grant) => match grant.expires_in {
                Some(expires_in) => self.with_tokens(
                    self.tokens.refreshed(grant@, expires_in, now),
                ).with_in_flight(false),
                None => self.with_in_flight(false),
            },
            ExchangeOutcome::Failed => self.with_in_flight(false),
        }
    }

    /// The manager after the outcome of an authorization-code exchange was
    /// applied at `now`.
    pub open spec fn after_authorization(self, outcome: ExchangeOutcome, now: u64) -> AuthView {
        match outcome {
            ExchangeOutcome::Granted(grant) => match grant.expires_in {
                Some(expires_in) => self.with_tokens(
                    TokenStateView::authorized(grant@, expires_in, now),
                ),
                None => self,
            },
            ExchangeOutcome::Failed => self,
        }
    }
}

/// That `r` is what is decided at `now` for the manager `before`, and
/// `after` the manager that the decision leaves. A valid access token needs
/// nothing. Without it, a valid refresh token is handed out for an exchange
/// and the exchange marked as in flight, unless one is in flight already.
/// With neither token valid the decision is the error `RefreshExpired`. The
/// manager changes by the in-flight mark at most.
pub open spec fn refresh_decided(
    before: AuthView,
    after: AuthView,
    r: Result<RefreshDecision, TokenError>,
    now: u64,
) -> bool {
    match r {
        Ok(RefreshDecision::AccessValid) => before.tokens.access_valid_at(now) && after == before,
        Ok(RefreshDecision::Exchange(exchange)) => before.wants_exchange_at(now)
            && before.tokens.refresh_token == Some(exchange.refresh_token@) && after
            == before.with_in_flight(true),
        Ok(RefreshDecision::InFlight) => before.awaits_exchange_at(now) && after == before,
        Err(e) => e == TokenError::RefreshExpired && !before.tokens.access_valid_at(now)
            && !before.tokens.refresh_valid_at(now) && after == before,
    }
}

/// That `r` is what is decided at `now` for a call on behalf of the user,
/// for the manager `before`, and `after` the manager that the decision
/// leaves. The access token is handed out where it is valid at `now`, and
/// only there. Without it the decision is that of [`refresh_decided`]: one
/// refresh exchange, or waiting for the one in flight, or the error
/// `RefreshExpired` where neither token is valid.
pub open spec fn token_decided(
    before: AuthView,
    after: AuthView,
    r: Result<TokenDecision, TokenError>,
    now: u64,
) -> bool {
    match r {
        Ok(TokenDecision::Valid(token)) => before.tokens.access_valid_at(now)
            && before.tokens.access_token == Some(token@) && after == before,
        Ok(TokenDecision::Exchange(exchange)) => before.wants_exchange_at(now)
            && before.tokens.refresh_token == Some(exchange.refresh_token@) && after
            == before.with_in_flight(true),
        Ok(TokenDecision::InFlight) => before.awaits_exchange_at(now) && after == before,
        Err(e) => e == TokenError::RefreshExpired && !before.tokens.access_valid_at(now)
            && !before.tokens.refresh_valid_at(now) && after == before,
    }
}

/// What applying the outcome of an exchange returns: success where tokens were
/// granted with a lifetime, `ExpiresInMissing` where the lifetime is missing,
/// `Access` where the exchange failed.
pub open spec fn exchange_result(outcome: ExchangeOutcome) -> Result<(), TokenError> {
    match outcome {
        ExchangeOutcome::Granted(grant) => match grant.expires_in {
            Some(_) => Ok(()),
            None => Err(TokenError::ExpiresInMissing),
        },
        ExchangeOutcome::Failed => Err(TokenError::Access),
    }
}

impl Auth {
    /// Begins a refresh: hands out the stored refresh token for the exchange
    /// and marks the exchange as in flight. Without a stored refresh token it
    /// fails with `Refresh` and changes nothing. Calling it while the access
    /// token is still valid is allowed.
    pub fn refresh(&mut self) -> (r: Result<RefreshExchange, TokenError>)
        ensures
            match r {
                Ok(exchange) => old(self)@.tokens.refresh_token == Some(exchange.refresh_token@)
                    && final(self)@ == old(self)@.with_in_flight(true),
                Err(e) => e == TokenError::Refresh && old(self)@.tokens.refresh_token is None
                    && final(self)@ == old(self)@,
            },
    {
        match &self.tokens.refresh_token {
            Some(token) => {
                let exchange = RefreshExchange { refresh_token: token.clone() };
                self.refresh_in_flight = true;
                Ok(exchange)
            },
            None => Err(TokenError::Refresh),
        }
    }

    /// Applies the outcome of a refresh exchange that ended at `now`, and
    /// clears the in-flight mark. On success the access token and its expiry
    /// are replaced, the refresh token is replaced where the provider rotated
    /// it, and the refresh token's expiry is set [`REFRESH_VALIDITY_DAYS`]
    /// after `now`. On failure the tokens stay as they are.
    pub fn complete_refresh(&mut self, outcome: ExchangeOutcome, now: u64) -> (r: Result<
        (),
        TokenError,
    >)
        ensures
            r == exchange_result(outcome),
            final(self)@ == old(self)@.after_refresh(outcome, now),
    {
        self.refresh_in_flight = false;
        match outcome {
            ExchangeOutcome::Granted(grant) => match grant.expires_in {
                Some(expires_in) => {
                    self.tokens.access_token = Some(grant.access_token);
                    self.tokens.access_expires_at = Some(expiry_from(now, expires_in));
                    match grant.refresh_token {
                        Some(token) => {
                            self.tokens.refresh_token = Some(token);
                        },
                        None => {},
                    }
                    self.tokens.refresh_expires_at = Some(
                        expiry_from(now, REFRESH_VALIDITY_SECONDS),
                    );
                    Ok(())
                },
                None => Err(TokenError::ExpiresInMissing),
            },
            ExchangeOutcome::Failed => Err(TokenError::Access),
        }
    }

    /// Decides what has to happen at `now` before a request can carry a valid
    /// access token. A valid access token needs nothing. Without it a valid
    /// refresh token is handed out for a refresh exchange, once: while the
    /// outcome of that exchange is owed, the answer is `InFlight`. With
    /// neither token valid it fails with `RefreshExpired`, and only a new
    /// authorization helps.
    pub fn try_refresh_at(&mut self, now: u64) -> (r: Result<RefreshDecision, TokenError>)
        ensures
            refresh_decided(old(self)@, final(self)@, r, now),
    {
        if self.tokens.access_valid_at(now) {
            Ok(RefreshDecision::AccessValid)
        } else if self.tokens.refresh_valid_at(now) {
            if self.refresh_in_flight {
                Ok(RefreshDecision::InFlight)
            } else {
                match self.refresh() {
                    Ok(exchange) => Ok(RefreshDecision::Exchange(exchange)),
                    Err(_) => Err(TokenError::RefreshExpired),
                }
            }
        } else {
            Err(TokenError::RefreshExpired)
        }
    }

    /// [`Auth::try_refresh_at`] at the moment of the call: what it decides for
    /// some instant that the clock can give. So an access token that is valid
    /// at the last such instant needs nothing, whatever the clock says.
    /// Whatever it says, too, the manager changes only by getting the
    /// in-flight mark, and that only together with a refresh exchange for the
    /// stored refresh token; and a manager without any token fails with
    /// `RefreshExpired`.
    pub fn try_refresh(&mut self) -> (r: Result<RefreshDecision, TokenError>)
        ensures
            exists|now: u64|
                now <= LAST_CLOCK_INSTANT && #[trigger] refresh_decided(
                    old(self)@,
                    final(self)@,
                    r,
                    now,
                ),
            old(self)@.tokens.access_valid_at(LAST_CLOCK_INSTANT) ==> r is Ok && r->Ok_0
                is AccessValid,
            match r {
                Ok(RefreshDecision::Exchange(exchange)) => !old(self)@.refresh_in_flight
                    && old(self)@.tokens.refresh_token == Some(exchange.refresh_token@)
                    && final(self)@ == old(self)@.with_in_flight(true),
                Ok(RefreshDecision::AccessValid) => old(self)@.tokens.access_token is Some
                    && final(self)@ == old(self)@,
                Ok(RefreshDecision::InFlight) => old(self)@.refresh_in_flight && final(self)@
                    == old(self)@,
                Err(e) => e == TokenError::RefreshExpired && final(self)@ == old(self)@,
            },
            old(self)@.tokens.unauthenticated() ==> r == Err::<RefreshDecision, TokenError>(
                TokenError::RefreshExpired,
            ),
    {
        let now = now_utc_seconds();
        let r = self.try_refresh_at(now);
        assert(refresh_decided(old(self)@, self@, r, now));
        r
    }

    /// Gives the access token for a call on behalf of the user at `now`, where
    /// it is valid, and only there. Without a valid access token a valid
    /// refresh token is handed out for a refresh exchange, once: while the
    /// outcome of that exchange is owed, the answer is `InFlight`. With
    /// neither token valid it fails with `RefreshExpired`.
    pub fn ensure_token_at(&mut self, now: u64) -> (r: Result<TokenDecision, TokenError>)
        ensures
            token_decided(old(self)@, final(self)@, r, now),
    {
        match self.try_refresh_at(now) {
            Ok(RefreshDecision::AccessValid) => match &self.tokens.access_token {
                Some(token) => Ok(TokenDecision::Valid(token.clone())),
                None => Err(TokenError::RefreshExpired),
            },
            Ok(RefreshDecision::Exchange(exchange)) => Ok(TokenDecision::Exchange(exchange)),
            Ok(RefreshDecision::InFlight) => Ok(TokenDecision::InFlight),
            Err(e) => Err(e),
        }
    }

    /// [`Auth::ensure_token_at`] at the moment of the call: what it decides
    /// for some instant that the clock can give. So an access token that is
    /// valid at the last such instant is handed out, whatever the clock says;
    /// and whatever it says, a token that is handed out is the stored one,
    /// and a manager without any token fails with `RefreshExpired`.
    pub fn ensure_token(&mut self) -> (r: Result<TokenDecision, TokenError>)
        ensures
            exists|now: u64|
                now <= LAST_CLOCK_INSTANT && #[trigger] token_decided(
                    old(self)@,
                    final(self)@,
                    r,
                    now,
                ),
            old(self)@.tokens.access_valid_at(LAST_CLOCK_INSTANT) ==> r is Ok && r->Ok_0 is Valid,
            r is Ok && r->Ok_0 is Valid ==> old(self)@.tokens.access_token == Some(
                r->Ok_0->Valid_0@,
            ) && final(self)@ == old(self)@,
            old(self)@.tokens.unauthenticated() ==> r == Err::<TokenDecision, TokenError>(
                TokenError::RefreshExpired,
            ),
    {
        let now = now_utc_seconds();
        let r = self.ensure_token_at(now);
        assert(token_decided(old(self)@, self@, r, now));
        r
    }

    /// Begins an authorization with a given CSRF state and PKCE code verifier:
    /// builds the URL the end user has to visit, and keeps state and verifier
    /// for [`Auth::authorize_finish`]. An authorization begun earlier and not
    /// finished is dropped. The tokens stay as they are.
    pub fn authorize_with(&mut self, csrf_state: String, pkce_verifier: String) -> (request:
        AuthorizationRequest)
        requires
            pkce_verifier_length_ok(pkce_verifier@),
        ensures
            request.csrf_state@ == csrf_state@,
            request.authorization_url@ == authorization_url_text(
                AUTH_URL@,
                old(self)@.client_id,
                old(self)@.redirect_url,
                old(self)@.scopes,
                csrf_state@,
                pkce_verifier@,
            ),
            final(self)@ == old(self)@.with_pending(
                Some(PendingView { csrf_state: csrf_state@, pkce_verifier: pkce_verifier@ }),
            ),
    {
        let authorization_url = build_authorization_url(
            AUTH_URL,
            self.credentials.client_id(),
            self.credentials.redirect_url(),
            &self.scopes,
            &csrf_state,
            &pkce_verifier,
        );
        let request = AuthorizationRequest { authorization_url, csrf_state: csrf_state.clone() };
        self.pending = Some(PendingAuthorization { csrf_state, pkce_verifier });
        request
    }

    /// Begins an authorization with a fresh random CSRF state and a fresh
    /// random PKCE code verifier. Whatever the two are: the state is 128 bits
    /// in URL-safe base64, the request carries it, its URL is the URL of the
    /// provider's authorization endpoint for this client, its scopes, that
    /// state and the verifier's SHA-256 challenge, and both are kept as the
    /// one pending authorization. The tokens stay as they are.
    pub fn authorize(&mut self) -> (request: AuthorizationRequest)
        ensures
            csrf_state_shape(request.csrf_state@),
            final(self)@.pending is Some,
            final(self)@.pending->0.csrf_state == request.csrf_state@,
            pkce_verifier_length_ok(final(self)@.pending->0.pkce_verifier),
            request.authorization_url@ == authorization_url_text(
                AUTH_URL@,
                old(self)@.client_id,
                old(self)@.redirect_url,
                old(self)@.scopes,
                request.csrf_state@,
                final(self)@.pending->0.pkce_verifier,
            ),
            final(self)@ == old(self)@.with_pending(final(self)@.pending),
    {
        let csrf_state = random_csrf_state();
        let pkce_verifier = random_pkce_verifier();
        self.authorize_with(csrf_state, pkce_verifier)
    }

    /// Takes what came back with the provider's redirect. Without a pending
    /// authorization it fails with `PkceCodeVerifierMissing`. Where the state
    /// is not, character for character, the one that was issued, it fails with
    /// `StateMismatch`; the pending authorization stays, and no exchange is
    /// handed out. Where the state matches, the pending authorization is used
    /// up and the exchange of the code, with the kept verifier, is handed out.
    /// The tokens stay as they are in every case.
    pub fn authorize_finish(&mut self, received_state: String, received_code: String) -> (r:
        Result<CodeExchange, TokenError>)
        ensures
            match r {
                Ok(exchange) => old(self)@.pending is Some && old(self)@.pending->0.csrf_state
                    == received_state@ && exchange.code@ == received_code@
                    && exchange.pkce_verifier@ == old(self)@.pending->0.pkce_verifier
                    && final(self)@ == old(self)@.with_pending(None),
                Err(TokenError::PkceCodeVerifierMissing) => old(self)@.pending is None
                    && final(self)@ == old(self)@,
                Err(e) => e == TokenError::StateMismatch && old(self)@.pending is Some
                    && old(self)@.pending->0.csrf_state != received_state@
                    && final(self)@ == old(self)@,
            },
    {
        match &self.pending {
            None => Err(TokenError::PkceCodeVerifierMissing),
            Some(pending) => {
                if pending.csrf_state == received_state {
                    let exchange = CodeExchange {
                        code: received_code,
                        pkce_verifier: pending.pkce_verifier.clone(),
                    };
                    self.pending = None;
                    Ok(exchange)
                } else {
                    Err(TokenError::StateMismatch)
                }
            },
        }
    }

    /// Applies the outcome of an authorization-code exchange that ended at
    /// `now`. On success the granted access token and refresh token replace
    /// the stored ones, the access token expires the granted lifetime after
    /// `now`, and a granted refresh token [`REFRESH_VALIDITY_DAYS`] after
    /// `now`. On failure nothing changes.
    pub fn complete_authorization(&mut self, outcome: ExchangeOutcome, now: u64) -> (r: Result<
        (),
        TokenError,
    >)
        ensures
            r == exchange_result(outcome),
            final(self)@ == old(self)@.after_authorization(outcome, now),
    {
        match outcome {
            ExchangeOutcome::Granted(grant) => match grant.expires_in {
                Some(expires_in) => {
                    let refresh_expires_at = if grant.refresh_token.is_some() {
                        Some(expiry_from(now, REFRESH_VALIDITY_SECONDS))
                    } else {
                        None
                    };
                    self.tokens = TokenState {
                        access_token: Some(grant.access_token),
                        refresh_token: grant.refresh_token,
                        access_expires_at: Some(expiry_from(now, expires_in)),
                        refresh_expires_at,
                    };
                    Ok(())
                },
                None => Err(TokenError::ExpiresInMissing),
            },
            ExchangeOutcome::Failed => Err(TokenError::Access),
        }
    }
}

impl AuthTokens {
    /// A manager for the given client that starts with the tokens of this
    /// snapshot. Fails with `TokenError::Parse` where the redirect URL does
    /// not parse.
    pub fn to_auth(&self, client_id: String, client_secret: String, redirect_url: String) -> (r:
        Result<Auth, TokenError>)
        ensures
            match r {
                Ok(auth) => urls_checked(redirect_url@) is Ok && auth@ == AuthView::fresh(
                    client_id@,
                    client_secret@,
                    redirect_url@,
                ).with_tokens(self@.restored()),
                Err(e) => e is Parse && urls_checked(redirect_url@) == Err::<(), ParseError>(
                    e->Parse_0,
                ),
            },
    {
        match Auth::new(client_id, client_secret, redirect_url) {
            Ok(mut auth) => {
                auth.tokens = TokenState {
                    access_token: clone_opt_text(&self.access_token),
                    refresh_token: clone_opt_text(&self.refresh_token),
                    access_expires_at: Some(self.expires_at),
                    refresh_expires_at: Some(self.refresh_expires_at),
                };
                Ok(auth)
            },
            Err(e) => Err(e),
        }
    }

    /// As [`AuthTokens::to_auth`], giving the snapshot up.
    pub fn into_auth(self, client_id: String, client_secret: String, redirect_url: String) -> (r:
        Result<Auth, TokenError>)
        ensures
            match r {
                Ok(auth) => urls_checked(redirect_url@) is Ok && auth@ == AuthView::fresh(
                    client_id@,
                    client_secret@,
                    redirect_url@,
                ).with_tokens(self@.restored()),
                Err(e) => e is Parse && urls_checked(redirect_url@) == Err::<(), ParseError>(
                    e->Parse_0,
                ),
            },
    {
        match Auth::new(client_id, client_secret, redirect_url) {
            Ok(mut auth) => {
                auth.tokens = TokenState {
                    access_token: self.access_token,
                    refresh_token: self.refresh_token,
                    access_expires_at: Some(self.expires_at),
                    refresh_expires_at: Some(self.refresh_expires_at),
                };
                Ok(auth)
            },
            Err(e) => Err(e),
        }
    }
}

/// A manager that holds no token has no valid token at any instant, and
/// stands in the phase `Unauthenticated`.
pub proof fn law_unauthenticated_nothing_valid(tokens: TokenStateView, now: u64)
    requires
        tokens.unauthenticated(),
    ensures
        !tokens.access_valid_at(now),
        !tokens.refresh_valid_at(now),
        tokens.phase_at(now) == AuthPhase::Unauthenticated,
{
}

/// After an authorization-code exchange that succeeded at `now` with a
/// lifetime of at least one second, the access token is valid at `now`, the
/// manager stands in the phase `AccessValid`, and the access token is valid at
/// no instant from its expiry on. (An access token granted at the last instant
/// there is, or with a lifetime of zero, is expired at once.)
pub proof fn law_authorization_gives_valid_access(
    auth: AuthView,
    grant: TokenGrant,
    now: u64,
    later: u64,
)
    requires
        grant.expires_in is Some,
        grant.expires_in->0 > 0,
        now < u64::MAX,
    ensures
        exchange_result(ExchangeOutcome::Granted(grant)) is Ok,
        auth.after_authorization(ExchangeOutcome::Granted(grant), now).tokens.access_valid_at(now),
        auth.after_authorization(ExchangeOutcome::Granted(grant), now).tokens.phase_at(now)
            == AuthPhase::AccessValid,
        auth.after_authorization(
            ExchangeOutcome::Granted(grant),
            now,
        ).tokens.access_expires_at == Some(expiry_after(now, grant.expires_in->0)),
        later >= expiry_after(now, grant.expires_in->0) ==> !auth.after_authorization(
            ExchangeOutcome::Granted(grant),
            now,
        ).tokens.access_valid_at(later),
{
}

/// After a refresh exchange that succeeded at `now` with a lifetime of at
/// least one second, the access token is valid at `now`, a refresh token is
/// still stored if one was, no exchange is in flight, and the access token is
/// valid at no instant from its expiry on.
pub proof fn law_refresh_gives_valid_access(
    auth: AuthView,
    grant: TokenGrant,
    now: u64,
    later: u64,
)
    requires
        grant.expires_in is Some,
        grant.expires_in->0 > 0,
        now < u64::MAX,
    ensures
        exchange_result(ExchangeOutcome::Granted(grant)) is Ok,
        auth.after_refresh(ExchangeOutcome::Granted(grant), now).tokens.phase_at(now)
            == AuthPhase::AccessValid,
        auth.tokens.refresh_token is Some ==> auth.after_refresh(
            ExchangeOutcome::Granted(grant),
            now,
        ).tokens.refresh_valid_at(now),
        !auth.after_refresh(ExchangeOutcome::Granted(grant), now).refresh_in_flight,
        later >= expiry_after(now, grant.expires_in->0) ==> !auth.after_refresh(
            ExchangeOutcome::Granted(grant),
            now,
        ).tokens.access_valid_at(later),
{
}

/// An exchange that fails, or grants a token without a lifetime, leaves the
/// tokens exactly as they were.
pub proof fn law_failed_exchange_keeps_tokens(auth: AuthView, outcome: ExchangeOutcome, now: u64)
    requires
        exchange_result(outcome) is Err,
    ensures
        auth.after_authorization(outcome, now) == auth,
        auth.after_refresh(outcome, now).tokens == auth.tokens,
{
}

/// A manager restored from the snapshot of a token state gives, at every
/// instant, the answers that the state itself gives.
pub proof fn law_snapshot_round_trip(tokens: TokenStateView, now: u64)
    ensures
        tokens.snapshot().restored().access_valid_at(now) == tokens.access_valid_at(now),
        tokens.snapshot().restored().refresh_valid_at(now) == tokens.refresh_valid_at(now),
        tokens.snapshot().restored().phase_at(now) == tokens.phase_at(now),
        tokens.snapshot().restored().snapshot() == tokens.snapshot(),
{
}

/// Once a refresh exchange was handed out, no second one is, at whatever
/// instant the next decision is taken, until the outcome of the first is
/// applied: the second decision changes nothing and hands out no exchange.
pub proof fn law_single_refresh_in_flight(
    before: AuthView,
    first: Result<RefreshDecision, TokenError>,
    between: AuthView,
    first_at: u64,
    second: Result<RefreshDecision, TokenError>,
    after: AuthView,
    second_at: u64,
)
    requires
        refresh_decided(before, between, first, first_at),
        first is Ok,
        first->Ok_0 is Exchange,
        refresh_decided(between, after, second, second_at),
    ensures
        between.refresh_in_flight,
        !(second is Ok && second->Ok_0 is Exchange),
        after == between,
{
}

/// Once a refresh exchange has succeeded at `done`, with a lifetime of at
/// least one second, no exchange is in flight, and whoever asks at `done`
/// finds the access token valid.
pub proof fn law_refreshed_for_everyone(
    auth: AuthView,
    grant: TokenGrant,
    done: u64,
    r: Result<RefreshDecision, TokenError>,
    after: AuthView,
)
    requires
        grant.expires_in is Some,
        grant.expires_in->0 > 0,
        done < u64::MAX,
        refresh_decided(auth.after_refresh(ExchangeOutcome::Granted(grant), done), after, r, done),
    ensures
        !auth.after_refresh(ExchangeOutcome::Granted(grant), done).refresh_in_flight,
        r is Ok,
        r->Ok_0 is AccessValid,
        after == auth.after_refresh(ExchangeOutcome::Granted(grant), done),
{
}

/// A call on behalf of the user carries a valid token or none: the token
/// that is handed out at `now` is the stored access token, it is valid at
/// `now`, and where the stored access token is not valid at `now`, no token
/// is handed out.
pub proof fn law_token_handed_out_is_valid(
    before: AuthView,
    after: AuthView,
    r: Result<TokenDecision, TokenError>,
    now: u64,
)
    requires
        token_decided(before, after, r, now),
    ensures
        r is Ok && r->Ok_0 is Valid <==> before.tokens.access_valid_at(now),
        r is Ok && r->Ok_0 is Valid ==> before.tokens.access_token == Some(r->Ok_0->Valid_0@),
        r is Err <==> !before.tokens.access_valid_at(now) && !before.tokens.refresh_valid_at(now),
{
}

/// Time only ever takes validity away: a token that is not valid at some
/// instant is not valid at any later one.
pub proof fn law_validity_ends_for_good(tokens: TokenStateView, now: u64, later: u64)
    requires
        now <= later,
    ensures
        !tokens.access_valid_at(now) ==> !tokens.access_valid_at(later),
        !tokens.refresh_valid_at(now) ==> !tokens.refresh_valid_at(later),
        tokens.phase_at(now) == AuthPhase::BothExpired ==> tokens.phase_at(later)
            == AuthPhase::BothExpired,
{
}

} // verus!
