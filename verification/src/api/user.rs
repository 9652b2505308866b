//! The user endpoint.

use crate::api::{describes_get, get_with_query};
use crate::api_request::{ApiError, ApiRequest};
use crate::auth::opt_text;
use crate::query::{Param, join_with_commas, opt_pair, push_text};
use crate::text::joined;
use vstd::prelude::*;

verus! {

/// The profile of the user the access token belongs to.
pub const USER_ME: &'static str = "https://api.myanimelist.net/v2/users/@me";

/// The user endpoint.
#[derive(Debug, Clone)]
pub struct UserApi {}

impl UserApi {
    /// The user endpoint.
    pub fn new() -> UserApi {
        UserApi {}
    }

    /// The endpoints that read.
    pub fn get(&self) -> UserApiGet {
        UserApiGet {}
    }
}

/// The user endpoints that read.
#[derive(Debug)]
pub struct UserApiGet {}

impl UserApiGet {
    /// The profile of the user.
    pub fn information(self) -> (r: UserInformationGet)
        ensures
            r@ == UserInformationGetView::unset(),
    {
        UserInformationGet { fields: None }
    }
}

/// Reads the profile of the user the access token belongs to.
#[derive(Debug, Clone)]
pub struct UserInformationGet {
    fields: Option<String>,
}

/// The mathematical value of [`UserInformationGet`].
pub struct UserInformationGetView {
    pub fields: Option<Seq<char>>,
}

impl View for UserInformationGet {
    type V = UserInformationGetView;

    closed spec fn view(&self) -> UserInformationGetView {
        UserInformationGetView {
            fields: opt_text(self.fields),
        }
    }
}

impl UserInformationGetView {
    /// No parameter is set.
    pub open spec fn unset() -> UserInformationGetView {
        UserInformationGetView {
            fields: None,
        }
    }

    /// The parameters of the query string, in their order: those that are set.
    pub open spec fn pairs(self) -> Seq<(Seq<char>, Seq<char>)> {
        opt_pair("fields"@, self.fields)
    }

    /// The path of the call.
    pub open spec fn path(self) -> Seq<char> {
        USER_ME@
    }
}

impl UserInformationGet {
    /// Which fields the answer holds: their names, joined with commas.
    pub fn fields(self, fields: Vec<String>) -> (r: Self)
        ensures
            r@ == (UserInformationGetView {
                fields: Some(joined(fields.deep_view(), seq![','])),
                ..self@
            }),
    {
        UserInformationGet { fields: Some(join_with_commas(&fields)), ..self }
    }

    /// The parameters of the query string, in their order: those that are set.
    pub fn params(&self) -> (params: Vec<Param>)
        ensures
            params.deep_view() == self@.pairs(),
    {
        let mut params: Vec<Param> = Vec::new();
        assert(params.deep_view() =~= Seq::empty());
        push_text(&mut params, "fields", &self.fields);
        assert(params.deep_view() =~= self@.pairs());
        params
    }

    /// Describes the call. The call is made on behalf of the user.
    pub fn request(&self) -> (r: Result<ApiRequest, ApiError>)
        ensures
            describes_get(r, self@.path(), self@.pairs(), true),
    {
        let path = USER_ME;
        get_with_query(path, &self.params(), true)
    }
}

} // verus!
