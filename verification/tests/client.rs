use mal_api::auth::{Auth, TokenError};
use mal_api::{MalClientBuilder, MalClientError};

const REDIRECT: &str = "https://example.org/cb";

#[test]
fn missing_values_are_named_in_their_order() {
    let r = MalClientBuilder::new().build();
    assert!(matches!(r, Err(MalClientError::Builder(ref n)) if n == "client_id"));
    let r = MalClientBuilder::new().client_secret("s".to_string()).build();
    assert!(matches!(r, Err(MalClientError::Builder(ref n)) if n == "client_id"));
    let r = MalClientBuilder::new().client_id("c".to_string()).build();
    assert!(matches!(r, Err(MalClientError::Builder(ref n)) if n == "client_secret"));
    let r = MalClientBuilder::new()
        .client_id("c".to_string())
        .redirect_url(REDIRECT.to_string())
        .build();
    assert!(matches!(r, Err(MalClientError::Builder(ref n)) if n == "client_secret"));
    let r =
        MalClientBuilder::new().client_id("c".to_string()).client_secret("s".to_string()).build();
    assert!(matches!(r, Err(MalClientError::Builder(ref n)) if n == "redirect_url"));
    let r = MalClientBuilder::default().build();
    assert!(matches!(r, Err(MalClientError::Builder(ref n)) if n == "client_id"));
}

#[test]
fn three_values_make_a_new_manager() {
    let client = MalClientBuilder::new()
        .client_id("c".to_string())
        .client_secret("s".to_string())
        .redirect_url(REDIRECT.to_string())
        .build()
        .unwrap();
    assert_eq!(client.auth.client_id(), "c");
    assert_eq!(client.auth.client_secret(), "s");
    assert_eq!(client.auth.redirect_url(), REDIRECT);
    assert_eq!(client.auth.access_token(), None);
    assert!(!client.auth.is_access_valid());
}

#[test]
fn a_redirect_url_that_does_not_parse_is_a_token_error() {
    let r = MalClientBuilder::new()
        .client_id("c".to_string())
        .client_secret("s".to_string())
        .redirect_url("nonsense".to_string())
        .build();
    assert!(matches!(r, Err(MalClientError::Token(TokenError::Parse(_)))));
}

#[test]
fn a_given_manager_is_used_as_it_is() {
    let mut auth = Auth::new("mine".to_string(), "s".to_string(), REDIRECT.to_string()).unwrap();
    auth.set_access_token_unchecked("tok".to_string());
    let client = MalClientBuilder::new().client_id("other".to_string()).auth(auth).build().unwrap();
    assert_eq!(client.auth.client_id(), "mine");
    assert_eq!(client.auth.access_token(), Some("tok".to_string()));
}

#[test]
fn endpoints_hang_off_the_client() {
    let client = MalClientBuilder::new()
        .client_id("c".to_string())
        .client_secret("s".to_string())
        .redirect_url(REDIRECT.to_string())
        .build()
        .unwrap();
    let call = client.anime().get().details().anime_id(1).request().unwrap();
    assert_eq!(call.url, "https://api.myanimelist.net/v2/anime/1?");
    let call = client.manga().get().details().manga_id(2).request().unwrap();
    assert_eq!(call.url, "https://api.myanimelist.net/v2/manga/2?");
    let call = client.user().get().information().request().unwrap();
    assert_eq!(call.url, "https://api.myanimelist.net/v2/users/@me?");
    let call = client.user_animelist().delete().anime_id(3).request();
    assert_eq!(call.url, "https://api.myanimelist.net/v2/anime/3/my_list_status");
    let call = client.user_mangalist().delete().manga_id(4).request();
    assert_eq!(call.url, "https://api.myanimelist.net/v2/manga/4/my_list_status");
    let call = client.forum().get().boards().request();
    assert_eq!(call.url, "https://api.myanimelist.net/v2/forum/boards");
}
