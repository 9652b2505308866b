//! The endpoints of the catalog's API. Each endpoint has a builder that
//! collects the parameters and then describes the call to be made.

pub mod anime;
pub mod forum;
pub mod manga;
pub mod user;
pub mod user_animelist;
pub mod user_mangalist;

use crate::api_request::{ApiError, ApiRequest, RequestMethod};
use crate::query::{encode_query, query_text, Param};
use crate::text::{concat_text, decimal, decimal_text};
use vstd::prelude::*;

verus! {

/// That `r` describes the reading call to `path` with the query string of
/// `pairs`, or is the error of writing that query string.
pub open spec fn describes_get(
    r: Result<ApiRequest, ApiError>,
    path: Seq<char>,
    pairs: Seq<(Seq<char>, Seq<char>)>,
    is_auth: bool,
) -> bool {
    match r {
        Ok(call) => query_text(pairs) is Ok && call.method == RequestMethod::Get && call.url@
            == path + seq!['?'] + query_text(pairs)->Ok_0 && call.data is None && call.is_auth
            == is_auth,
        Err(e) => e is QuerySerError && query_text(pairs) == Err::<Seq<char>, serde_qs::Error>(
            e->QuerySerError_0,
        ),
    }
}

/// Describes the reading call to `path` with the given parameters as its
/// query string. The URL is the path, a question mark, and the query string,
/// also where there are no parameters.
pub fn get_with_query(path: &str, params: &Vec<Param>, is_auth: bool) -> (r: Result<
    ApiRequest,
    ApiError,
>)
    ensures
        describes_get(r, path@, params.deep_view(), is_auth),
{
    match encode_query(params) {
        Ok(query) => {
            let mut url = concat_text(path, "?");
            proof {
                reveal_strlit("?");
                assert("?"@ =~= seq!['?']);
            }
            url.append(query.as_str());
            Ok(ApiRequest::get(url, is_auth))
        },
        Err(e) => Err(ApiError::QuerySerError(e)),
    }
}

/// The path of a thing with an id: what stands before the id, the id in
/// decimal, and what stands behind it.
pub open spec fn id_path(before: Seq<char>, id: u64, behind: Seq<char>) -> Seq<char> {
    before + decimal(id as nat) + behind
}

/// Writes the path of a thing with an id.
pub fn path_with_id(before: &str, id: u64, behind: &str) -> (path: String)
    ensures
        path@ == id_path(before@, id, behind@),
{
    let mut path = concat_text(before, decimal_text(id).as_str());
    path.append(behind);
    path
}

/// A number held at a largest value.
pub open spec fn capped(value: u64, most: u64) -> u64 {
    if value > most {
        most
    } else {
        value
    }
}

/// Holds a number at a largest value.
pub fn cap_u16(value: u16, most: u16) -> (held: u16)
    ensures
        held == capped(value as u64, most as u64),
{
    if value > most {
        most
    } else {
        value
    }
}

/// Holds a number at a largest value.
pub fn cap_u8(value: u8, most: u8) -> (held: u8)
    ensures
        held == capped(value as u64, most as u64),
{
    if value > most {
        most
    } else {
        value
    }
}

} // verus!
