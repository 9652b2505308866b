//! The calls this library makes into `oauth2` and `chrono`.
//!
//! Every function here is trusted: the verifier takes its contract as given and
//! does not look at its body.

use oauth2::basic::BasicClient;
use oauth2::url::ParseError;
use oauth2::{
    AuthUrl, ClientId, CsrfToken, PkceCodeChallenge, PkceCodeVerifier, RedirectUrl, Scope,
};
use vstd::prelude::*;

verus! {

/// The error of `url::Url::parse`, carried through as an opaque value.
#[verifier::external_type_specification]
#[verifier::external_body]
pub struct ExParseError(ParseError);

/// What `oauth2::RedirectUrl::new` returns for a text, with the parsed URL
/// itself dropped.
pub uninterp spec fn redirect_url_parse(url: Seq<char>) -> Result<(), ParseError>;

/// What `oauth2::AuthUrl::new` returns for a text, with the parsed URL itself
/// dropped.
pub uninterp spec fn auth_url_parse(url: Seq<char>) -> Result<(), ParseError>;

/// The text of the URL that `oauth2`'s `AuthorizationRequest::url` builds for
/// an authorization endpoint from a client id, a redirect URL, a list of
/// scopes, a CSRF state and the SHA-256 challenge of a PKCE verifier.
pub uninterp spec fn authorization_url_text(
    auth_url: Seq<char>,
    client_id: Seq<char>,
    redirect_url: Seq<char>,
    scopes: Seq<Seq<char>>,
    csrf_state: Seq<char>,
    pkce_verifier: Seq<char>,
) -> Seq<char>;

/// The lengths RFC 7636 allows for a PKCE code verifier, counted in bytes.
pub open spec fn pkce_verifier_length_ok(verifier: Seq<char>) -> bool {
    43 <= vstd::utf8::encode_utf8(verifier).len() <= 128
}

/// `chrono::Utc::now().timestamp()`: the current time in whole seconds since
/// the Unix epoch. `Utc::now` takes the time as a duration since the epoch, so
/// what it hands back is never negative; nothing else is known of it. It
/// panics where the system clock stands before 1970.
#[verifier::external_body]
pub(crate) fn utc_timestamp() -> (seconds: i64)
    ensures
        seconds >= 0,
{
    chrono::Utc::now().timestamp()
}

/// A character of the URL-safe base64 alphabet: a letter of either case, a
/// digit, `-` or `_`.
pub open spec fn url_safe_char(c: char) -> bool {
    ||| 'A' <= c <= 'Z'
    ||| 'a' <= c <= 'z'
    ||| '0' <= c <= '9'
    ||| c == '-'
    ||| c == '_'
}

/// The shape of a CSRF state that this library issues: 128 bits written as
/// URL-safe base64 without padding, which is 22 characters.
pub open spec fn csrf_state_shape(state: Seq<char>) -> bool {
    &&& state.len() == 22
    &&& forall|i: int| 0 <= i < state.len() ==> url_safe_char(#[trigger] state[i])
}

/// `oauth2::CsrfToken::new_random`: a fresh random CSRF state. The call takes
/// 16 random bytes and writes them as URL-safe base64 without padding, so the
/// state has that shape; which state it is, nothing says.
#[verifier::external_body]
pub(crate) fn random_csrf_state() -> (state: String)
    ensures
        csrf_state_shape(state@),
{
    CsrfToken::new_random().secret().clone()
}

/// `oauth2::PkceCodeChallenge::new_random_sha256`: a fresh random PKCE code
/// verifier. The call asserts that the verifier it made has between 43 and 128
/// bytes before it returns; that is all the contract says.
#[verifier::external_body]
pub(crate) fn random_pkce_verifier() -> (verifier: String)
    ensures
        pkce_verifier_length_ok(verifier@),
{
    PkceCodeChallenge::new_random_sha256().1.secret().clone()
}

/// `oauth2::RedirectUrl::new`: whether a text parses as a URL. The contract
/// names the result.
#[verifier::external_body]
pub(crate) fn parse_redirect_url(url: &String) -> (r: Result<(), ParseError>)
    ensures
        r == redirect_url_parse(url@),
{
    RedirectUrl::new(url.clone()).map(|_| ())
}

/// `oauth2::AuthUrl::new`: whether a text parses as a URL. The contract names
/// the result.
#[verifier::external_body]
pub(crate) fn parse_auth_url(url: &str) -> (r: Result<(), ParseError>)
    ensures
        r == auth_url_parse(url@),
{
    AuthUrl::new(url.to_owned()).map(|_| ())
}

/// `oauth2::Client::authorize_url` with scopes and a SHA-256 PKCE challenge,
/// then `AuthorizationRequest::url`: the authorization URL as text. The
/// contract names the result. `PkceCodeChallenge::from_code_verifier_sha256`
/// panics on a verifier outside the RFC's lengths, and the two URLs have to
/// parse, so all three are required.
#[verifier::external_body]
pub(crate) fn build_authorization_url(
    auth_url: &str,
    client_id: &String,
    redirect_url: &String,
    scopes: &Vec<String>,
    csrf_state: &String,
    pkce_verifier: &String,
) -> (url: String)
    requires
        auth_url_parse(auth_url@) is Ok,
        redirect_url_parse(redirect_url@) is Ok,
        pkce_verifier_length_ok(pkce_verifier@),
    ensures
        url@ == authorization_url_text(
            auth_url@,
            client_id@,
            redirect_url@,
            scopes.deep_view(),
            csrf_state@,
            pkce_verifier@,
        ),
{
    let auth_url = AuthUrl::new(auth_url.to_owned()).unwrap();
    let client = BasicClient::new(ClientId::new(client_id.clone()), None, auth_url, None)
        .set_redirect_uri(RedirectUrl::new(redirect_url.clone()).unwrap());
    let verifier = PkceCodeVerifier::new(pkce_verifier.clone());
    let state = CsrfToken::new(csrf_state.clone());
    client
        .authorize_url(move || state)
        .add_scopes(scopes.iter().map(|s| Scope::new(s.clone())))
        .set_pkce_challenge(PkceCodeChallenge::from_code_verifier_sha256(&verifier))
        .url().0.to_string()
}

} // verus!
