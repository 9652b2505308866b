//! A client for the MyAnimeList API: the OAuth2 token manager, the builders
//! that describe each call, and the rules by which an answer is judged. The
//! library decides and describes; it performs no input or output itself.

pub mod api;
pub mod api_request;
pub mod auth;
pub mod date;
pub mod objects;
pub mod provider;
pub mod query;
pub mod text;

use crate::api::anime::AnimeApi;
use crate::api::forum::ForumApi;
use crate::api::manga::MangaApi;
use crate::api::user::UserApi;
use crate::api::user_animelist::UserAnimeListApi;
use crate::api::user_mangalist::UserMangaListApi;
use crate::auth::{urls_checked, Auth, AuthView, TokenError};
use oauth2::url::ParseError;
use vstd::prelude::*;

verus! {

/// A client of the API. It owns the token manager; the endpoints hang off it.
pub struct MalClient {
    /// The token manager. Authorization and refreshing go through it.
    pub auth: Auth,
}

impl MalClient {
    /// The anime endpoints.
    pub fn anime(&self) -> AnimeApi {
        AnimeApi::new()
    }

    /// The manga endpoints.
    pub fn manga(&self) -> MangaApi {
        MangaApi::new()
    }

    /// The endpoints of the user's anime list.
    pub fn user_animelist(&self) -> UserAnimeListApi {
        UserAnimeListApi::new()
    }

    /// The endpoints of the user's manga list.
    pub fn user_mangalist(&self) -> UserMangaListApi {
        UserMangaListApi::new()
    }

    /// The user endpoint.
    pub fn user(&self) -> UserApi {
        UserApi::new()
    }

    /// The forum endpoints.
    pub fn forum(&self) -> ForumApi {
        ForumApi::new()
    }
}

/// Why a client could not be built.
#[derive(Debug)]
pub enum MalClientError {
    /// The HTTP client could not be built; the text says why.
    Reqwest(String),
    /// The named value is needed and was not given.
    Builder(String),
    /// The token manager could not be built.
    Token(TokenError),
}

/// Collects what a [`MalClient`] is built from: a token manager, or the three
/// values from which one is made.
pub struct MalClientBuilder {
    auth: Option<Auth>,
    client_id: Option<String>,
    client_secret: Option<String>,
    redirect_url: Option<String>,
}

/// The mathematical value of [`MalClientBuilder`].
pub struct MalClientBuilderView {
    pub auth: Option<AuthView>,
    pub client_id: Option<Seq<char>>,
    pub client_secret: Option<Seq<char>>,
    pub redirect_url: Option<Seq<char>>,
}

impl View for MalClientBuilder {
    type V = MalClientBuilderView;

    closed spec fn view(&self) -> MalClientBuilderView {
        MalClientBuilderView {
            auth: match self.auth {
                Some(auth) => Some(auth@),
                None => None,
            },
            client_id: crate::auth::opt_text(self.client_id),
            client_secret: crate::auth::opt_text(self.client_secret),
            redirect_url: crate::auth::opt_text(self.redirect_url),
        }
    }
}

impl MalClientBuilderView {
    /// Nothing is given.
    pub open spec fn unset() -> MalClientBuilderView {
        MalClientBuilderView {
            auth: None,
            client_id: None,
            client_secret: None,
            redirect_url: None,
        }
    }

    /// The first of the three values that is missing, by its name.
    pub open spec fn missing(self) -> Option<Seq<char>> {
        if self.client_id is None {
            Some("client_id"@)
        } else if self.client_secret is None {
            Some("client_secret"@)
        } else if self.redirect_url is None {
            Some("redirect_url"@)
        } else {
            None
        }
    }
}

impl Default for MalClientBuilder {
    fn default() -> (builder: MalClientBuilder)
        ensures
            builder@ == MalClientBuilderView::unset(),
    {
        MalClientBuilder { auth: None, client_id: None, client_secret: None, redirect_url: None }
    }
}

impl MalClientBuilder {
    /// A builder to which nothing is given yet.
    pub fn new() -> (builder: MalClientBuilder)
        ensures
            builder@ == MalClientBuilderView::unset(),
    {
        MalClientBuilder { auth: None, client_id: None, client_secret: None, redirect_url: None }
    }

    /// Gives the token manager to use. With it the three values are not needed.
    pub fn auth(self, auth: Auth) -> (r: Self)
        ensures
            r@ == (MalClientBuilderView { auth: Some(auth@), ..self@ }),
    {
        MalClientBuilder { auth: Some(auth), ..self }
    }

    /// Gives the client id for a new token manager.
    pub fn client_id(self, client_id: String) -> (r: Self)
        ensures
            r@ == (MalClientBuilderView { client_id: Some(client_id@), ..self@ }),
    {
        MalClientBuilder { client_id: Some(client_id), ..self }
    }

    /// Gives the client secret for a new token manager.
    pub fn client_secret(self, client_secret: String) -> (r: Self)
        ensures
            r@ == (MalClientBuilderView { client_secret: Some(client_secret@), ..self@ }),
    {
        MalClientBuilder { client_secret: Some(client_secret), ..self }
    }

    /// Gives the redirect URL for a new token manager.
    pub fn redirect_url(self, redirect_url: String) -> (r: Self)
        ensures
            r@ == (MalClientBuilderView { redirect_url: Some(redirect_url@), ..self@ }),
    {
        MalClientBuilder { redirect_url: Some(redirect_url), ..self }
    }

    /// Builds the client. A token manager that was given is used as it is.
    /// Without one, a new manager is made from client id, client secret and
    /// redirect URL: the first of them that is missing is named in a
    /// `Builder` error, and a redirect URL or an authorization endpoint that
    /// does not parse gives a `Token` error with the parser's error in it.
    pub fn build(self) -> (r: Result<MalClient, MalClientError>)
        ensures
            match r {
                Ok(client) => match self@.auth {
                    Some(auth) => client.auth@ == auth,
                    None => self@.missing() is None && urls_checked(self@.redirect_url->0)
                        is Ok && client.auth@ == AuthView::fresh(
                        self@.client_id->0,
                        self@.client_secret->0,
                        self@.redirect_url->0,
                    ),
                },
                Err(MalClientError::Builder(name)) => self@.auth is None && self@.missing()
                    == Some(name@),
                Err(MalClientError::Token(e)) => self@.auth is None && self@.missing() is None
                    && e is Parse && urls_checked(self@.redirect_url->0) == Err::<
                    (),
                    ParseError,
                >(e->Parse_0),
                Err(MalClientError::Reqwest(_)) => false,
            },
    {
        match self.auth {
            Some(auth) => Ok(MalClient { auth }),
            None => {
                let client_id = match self.client_id {
                    Some(v) => v,
                    None => {
                        return Err(MalClientError::Builder("client_id".to_owned()));
                    },
                };
                let client_secret = match self.client_secret {
                    Some(v) => v,
                    None => {
                        return Err(MalClientError::Builder("client_secret".to_owned()));
                    },
                };
                let redirect_url = match self.redirect_url {
                    Some(v) => v,
                    None => {
                        return Err(MalClientError::Builder("redirect_url".to_owned()));
                    },
                };
                match Auth::new(client_id, client_secret, redirect_url) {
                    Ok(auth) => Ok(MalClient { auth }),
                    Err(e) => Err(MalClientError::Token(e)),
                }
            },
        }
    }
}

} // verus!
