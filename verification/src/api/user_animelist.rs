//! The endpoints of a user's anime list.

use crate::api::{cap_u16, cap_u8, capped, describes_get, get_with_query, id_path, path_with_id};
use crate::api_request::{ApiError, ApiRequest, RequestMethod};
use crate::auth::opt_text;
use crate::objects::{AnimeSort, Username, WatchStatus};
use crate::query::{
    Param, join_with_commas, opt_bool, opt_decimal, opt_pair, push_bool, push_name, push_number,
    push_text,
};
use crate::text::{concat_text, joined};
use vstd::prelude::*;

verus! {

/// What stands before the user's name in the URL of a user's anime list.
pub const USER_ANIMELIST_PREFIX: &'static str = "https://api.myanimelist.net/v2/users/";

/// What stands behind the user's name in the URL of a user's anime list.
pub const USER_ANIMELIST_SUFFIX: &'static str = "/animelist";

/// What stands before the id in the URL of a anime's entry in the user's list.
pub const USER_ANIME_ID_PREFIX: &'static str = "https://api.myanimelist.net/v2/anime/";

/// What stands behind the id in the URL of a anime's entry in the user's list.
pub const USER_ANIME_ID_SUFFIX: &'static str = "/my_list_status";

/// The endpoints of a user's anime list.
#[derive(Debug, Clone)]
pub struct UserAnimeListApi {}

impl UserAnimeListApi {
    /// The endpoints of a user's anime list.
    pub fn new() -> UserAnimeListApi {
        UserAnimeListApi {}
    }

    /// Reads a user's anime list.
    pub fn get(&self) -> (r: UserAnimeListApiGet)
        ensures
            r@ == UserAnimeListApiGetView::unset(),
    {
        UserAnimeListApiGet {
            user_name: None,
            status: None,
            sort: None,
            limit: None,
            offset: None,
            fields: None,
            nsfw: None,
        }
    }

    /// Adds a anime to the user's list, or changes its entry. Only the values that are set are
    /// changed.
    pub fn put(&self) -> (r: UserAnimeListApiPut)
        ensures
            r@ == UserAnimeListApiPutView::unset(),
    {
        UserAnimeListApiPut {
            anime_id: None,
            status: None,
            is_rewatching: None,
            score: None,
            num_watched_episodes: None,
            priority: None,
            num_times_rewatched: None,
            rewatch_value: None,
            tags: None,
            comments: None,
        }
    }

    /// Takes a anime off the user's list. Where it is not on the list the API answers that
    /// there is no such thing.
    pub fn delete(&self) -> (r: UserAnimeListApiDelete)
        ensures
            r@ == UserAnimeListApiDeleteView::unset(),
    {
        UserAnimeListApiDelete { anime_id: None }
    }
}

/// Adds a anime to the user's list, or changes its entry.
#[derive(Debug, Clone)]
pub struct UserAnimeListApiPut {
    anime_id: Option<u64>,
    status: Option<WatchStatus>,
    is_rewatching: Option<bool>,
    score: Option<u8>,
    num_watched_episodes: Option<u64>,
    priority: Option<u8>,
    num_times_rewatched: Option<u64>,
    rewatch_value: Option<u8>,
    tags: Option<String>,
    comments: Option<String>,
}

/// The mathematical value of [`UserAnimeListApiPut`].
pub struct UserAnimeListApiPutView {
    pub anime_id: Option<u64>,
    pub status: Option<WatchStatus>,
    pub is_rewatching: Option<bool>,
    pub score: Option<u64>,
    pub num_watched_episodes: Option<u64>,
    pub priority: Option<u64>,
    pub num_times_rewatched: Option<u64>,
    pub rewatch_value: Option<u64>,
    pub tags: Option<Seq<char>>,
    pub comments: Option<Seq<char>>,
}

impl View for UserAnimeListApiPut {
    type V = UserAnimeListApiPutView;

    closed spec fn view(&self) -> UserAnimeListApiPutView {
        UserAnimeListApiPutView {
            anime_id: self.anime_id,
            status: self.status,
            is_rewatching: self.is_rewatching,
            score: match self.score {
                Some(n) => Some(n as u64),
                None => None,
            },
            num_watched_episodes: self.num_watched_episodes,
            priority: match self.priority {
                Some(n) => Some(n as u64),
                None => None,
            },
            num_times_rewatched: self.num_times_rewatched,
            rewatch_value: match self.rewatch_value {
                Some(n) => Some(n as u64),
                None => None,
            },
            tags: opt_text(self.tags),
            comments: opt_text(self.comments),
        }
    }
}

impl UserAnimeListApiPutView {
    /// No parameter is set.
    pub open spec fn unset() -> UserAnimeListApiPutView {
        UserAnimeListApiPutView {
            anime_id: None,
            status: None,
            is_rewatching: None,
            score: None,
            num_watched_episodes: None,
            priority: None,
            num_times_rewatched: None,
            rewatch_value: None,
            tags: None,
            comments: None,
        }
    }

    /// The fields of the form, in their order: those that are set.
    pub open spec fn pairs(self) -> Seq<(Seq<char>, Seq<char>)> {
        opt_pair("status"@, match self.status {
                Some(v) => Some(v.name()),
                None => None,
            })
            + opt_pair("is_rewatching"@, opt_bool(self.is_rewatching))
            + opt_pair("score"@, opt_decimal(self.score))
            + opt_pair("num_watched_episodes"@, opt_decimal(self.num_watched_episodes))
            + opt_pair("priority"@, opt_decimal(self.priority))
            + opt_pair("num_times_rewatched"@, opt_decimal(self.num_times_rewatched))
            + opt_pair("rewatch_value"@, opt_decimal(self.rewatch_value))
            + opt_pair("tags"@, self.tags)
            + opt_pair("comments"@, self.comments)
    }

    /// The path of the call.
    pub open spec fn path(self) -> Seq<char> {
        id_path(USER_ANIME_ID_PREFIX@, self.anime_id->0, USER_ANIME_ID_SUFFIX@)
    }
}

impl UserAnimeListApiPut {
    /// The id of the anime. It has to be set.
    pub fn anime_id(self, anime_id: u64) -> (r: Self)
        ensures
            r@ == (UserAnimeListApiPutView { anime_id: Some(anime_id), ..self@ }),
    {
        UserAnimeListApiPut { anime_id: Some(anime_id), ..self }
    }

    /// Where the user stands with the anime.
    pub fn status(self, status: WatchStatus) -> (r: Self)
        ensures
            r@ == (UserAnimeListApiPutView { status: Some(status), ..self@ }),
    {
        UserAnimeListApiPut { status: Some(status), ..self }
    }

    /// Whether the user is watching it again.
    pub fn is_rewatching(self, is_rewatching: bool) -> (r: Self)
        ensures
            r@ == (UserAnimeListApiPutView { is_rewatching: Some(is_rewatching), ..self@ }),
    {
        UserAnimeListApiPut { is_rewatching: Some(is_rewatching), ..self }
    }

    /// The score, from 0 to 10. A number above 10 is held at 10.
    pub fn score(self, score: u8) -> (r: Self)
        ensures
            r@ == (UserAnimeListApiPutView { score: Some(capped(score as u64, 10)), ..self@ }),
    {
        UserAnimeListApiPut { score: Some(cap_u8(score, 10)), ..self }
    }

    /// How many episodes the user has watched.
    pub fn num_watched_episodes(self, num_watched_episodes: u64) -> (r: Self)
        ensures
            r@ == (UserAnimeListApiPutView {
                num_watched_episodes: Some(num_watched_episodes),
                ..self@
            }),
    {
        UserAnimeListApiPut { num_watched_episodes: Some(num_watched_episodes), ..self }
    }

    /// The priority, from 0 to 2. A number above 2 is held at 2.
    pub fn priority(self, priority: u8) -> (r: Self)
        ensures
            r@ == (UserAnimeListApiPutView { priority: Some(capped(priority as u64, 2)), ..self@ }),
    {
        UserAnimeListApiPut { priority: Some(cap_u8(priority, 2)), ..self }
    }

    /// How many times the user has watched it again.
    pub fn num_times_rewatched(self, num_times_rewatched: u64) -> (r: Self)
        ensures
            r@ == (UserAnimeListApiPutView {
                num_times_rewatched: Some(num_times_rewatched),
                ..self@
            }),
    {
        UserAnimeListApiPut { num_times_rewatched: Some(num_times_rewatched), ..self }
    }

    /// How much it is worth watching again, from 0 to 5. A number above 5 is held at 5.
    pub fn rewatch_value(self, rewatch_value: u8) -> (r: Self)
        ensures
            r@ == (UserAnimeListApiPutView {
                rewatch_value: Some(capped(rewatch_value as u64, 5)),
                ..self@
            }),
    {
        UserAnimeListApiPut { rewatch_value: Some(cap_u8(rewatch_value, 5)), ..self }
    }

    /// The tags.
    pub fn tags(self, tags: &str) -> (r: Self)
        ensures
            r@ == (UserAnimeListApiPutView { tags: Some(tags@), ..self@ }),
    {
        UserAnimeListApiPut { tags: Some(tags.to_owned()), ..self }
    }

    /// The comments.
    pub fn comments(self, comments: &str) -> (r: Self)
        ensures
            r@ == (UserAnimeListApiPutView { comments: Some(comments@), ..self@ }),
    {
        UserAnimeListApiPut { comments: Some(comments.to_owned()), ..self }
    }

    /// The fields of the form, in their order: those that are set.
    pub fn params(&self) -> (params: Vec<Param>)
        ensures
            params.deep_view() == self@.pairs(),
    {
        let mut params: Vec<Param> = Vec::new();
        assert(params.deep_view() =~= Seq::empty());
        push_name(
            &mut params,
            "status",
            match self.status {
                Some(v) => Some(v.as_str()),
                None => None,
            },
        );
        push_bool(&mut params, "is_rewatching", self.is_rewatching);
        push_number(
            &mut params,
            "score",
            match self.score {
                Some(n) => Some(n as u64),
                None => None,
            },
        );
        push_number(&mut params, "num_watched_episodes", self.num_watched_episodes);
        push_number(
            &mut params,
            "priority",
            match self.priority {
                Some(n) => Some(n as u64),
                None => None,
            },
        );
        push_number(&mut params, "num_times_rewatched", self.num_times_rewatched);
        push_number(
            &mut params,
            "rewatch_value",
            match self.rewatch_value {
                Some(n) => Some(n as u64),
                None => None,
            },
        );
        push_text(&mut params, "tags", &self.tags);
        push_text(&mut params, "comments", &self.comments);
        assert(params.deep_view() =~= self@.pairs());
        params
    }

    /// Whether `anime_id` is set, so that the call can be described.
    pub fn is_ready(&self) -> (ready: bool)
        ensures
            ready == (self@.anime_id is Some),
    {
        self.anime_id.is_some()
    }

    /// Describes the call. The id has to be set. The call writes the values that are set, as a
    /// form, on behalf of the user.
    pub fn request(&self) -> (call: ApiRequest)
        requires
            self@.anime_id is Some,
        ensures
            call.method == RequestMethod::Put,
            call.url@ == self@.path(),
            call.data is Some,
            call.data->0.deep_view() == self@.pairs(),
            call.is_auth,
    {
        let path = path_with_id(USER_ANIME_ID_PREFIX, self.anime_id.unwrap(), USER_ANIME_ID_SUFFIX);
        ApiRequest::put(path, Some(self.params()), true)
    }
}

/// Takes a anime off the user's list.
#[derive(Debug, Clone)]
pub struct UserAnimeListApiDelete {
    anime_id: Option<u64>,
}

/// The mathematical value of [`UserAnimeListApiDelete`].
pub struct UserAnimeListApiDeleteView {
    pub anime_id: Option<u64>,
}

impl View for UserAnimeListApiDelete {
    type V = UserAnimeListApiDeleteView;

    closed spec fn view(&self) -> UserAnimeListApiDeleteView {
        UserAnimeListApiDeleteView {
            anime_id: self.anime_id,
        }
    }
}

impl UserAnimeListApiDeleteView {
    /// No parameter is set.
    pub open spec fn unset() -> UserAnimeListApiDeleteView {
        UserAnimeListApiDeleteView {
            anime_id: None,
        }
    }

    /// The parameters of the query string, in their order: those that are set.
    pub open spec fn pairs(self) -> Seq<(Seq<char>, Seq<char>)> {
        Seq::empty()
    }

    /// The path of the call.
    pub open spec fn path(self) -> Seq<char> {
        id_path(USER_ANIME_ID_PREFIX@, self.anime_id->0, USER_ANIME_ID_SUFFIX@)
    }
}

impl UserAnimeListApiDelete {
    /// The id of the anime. It has to be set.
    pub fn anime_id(self, anime_id: u64) -> (r: Self)
        ensures
            r@ == (UserAnimeListApiDeleteView { anime_id: Some(anime_id), ..self@ }),
    {
        UserAnimeListApiDelete { anime_id: Some(anime_id), ..self }
    }

    /// Whether `anime_id` is set, so that the call can be described.
    pub fn is_ready(&self) -> (ready: bool)
        ensures
            ready == (self@.anime_id is Some),
    {
        self.anime_id.is_some()
    }

    /// Describes the call. The id has to be set. The call is made on behalf of the user.
    pub fn request(&self) -> (call: ApiRequest)
        requires
            self@.anime_id is Some,
        ensures
            call.method == RequestMethod::Delete,
            call.url@ == self@.path(),
            call.data is None,
            call.is_auth,
    {
        let path = path_with_id(USER_ANIME_ID_PREFIX, self.anime_id.unwrap(), USER_ANIME_ID_SUFFIX);
        ApiRequest::delete(path, true)
    }
}

/// Reads a user's anime list.
#[derive(Debug, Clone)]
pub struct UserAnimeListApiGet {
    user_name: Option<Username>,
    status: Option<WatchStatus>,
    sort: Option<AnimeSort>,
    limit: Option<u16>,
    offset: Option<u64>,
    fields: Option<String>,
    nsfw: Option<bool>,
}

/// The mathematical value of [`UserAnimeListApiGet`].
pub struct UserAnimeListApiGetView {
    pub user_name: Option<Username>,
    pub status: Option<WatchStatus>,
    pub sort: Option<AnimeSort>,
    pub limit: Option<u64>,
    pub offset: Option<u64>,
    pub fields: Option<Seq<char>>,
    pub nsfw: Option<bool>,
}

impl View for UserAnimeListApiGet {
    type V = UserAnimeListApiGetView;

    closed spec fn view(&self) -> UserAnimeListApiGetView {
        UserAnimeListApiGetView {
            user_name: self.user_name,
            status: self.status,
            sort: self.sort,
            limit: match self.limit {
                Some(n) => Some(n as u64),
                None => None,
            },
            offset: self.offset,
            fields: opt_text(self.fields),
            nsfw: self.nsfw,
        }
    }
}

impl UserAnimeListApiGetView {
    /// No parameter is set.
    pub open spec fn unset() -> UserAnimeListApiGetView {
        UserAnimeListApiGetView {
            user_name: None,
            status: None,
            sort: None,
            limit: None,
            offset: None,
            fields: None,
            nsfw: None,
        }
    }

    /// The parameters of the query string, in their order: those that are set.
    pub open spec fn pairs(self) -> Seq<(Seq<char>, Seq<char>)> {
        opt_pair("status"@, match self.status {
                Some(v) => Some(v.name()),
                None => None,
            })
            + opt_pair("sort"@, match self.sort {
                Some(v) => Some(v.name()),
                None => None,
            })
            + opt_pair("limit"@, opt_decimal(self.limit))
            + opt_pair("offset"@, opt_decimal(self.offset))
            + opt_pair("fields"@, self.fields)
            + opt_pair("nsfw"@, opt_bool(self.nsfw))
    }

    /// The path of the call.
    pub open spec fn path(self) -> Seq<char> {
        USER_ANIMELIST_PREFIX@ + self.user_name->0.name() + USER_ANIMELIST_SUFFIX@
    }

    /// Whether the call is made on behalf of the user.
    pub open spec fn is_auth(self) -> bool {
        self.user_name->0 is Me
    }
}

impl UserAnimeListApiGet {
    /// Whose list. It has to be set.
    pub fn user_name(self, user_name: Username) -> (r: Self)
        ensures
            r@ == (UserAnimeListApiGetView { user_name: Some(user_name), ..self@ }),
    {
        UserAnimeListApiGet { user_name: Some(user_name), ..self }
    }

    /// Only the entries with this status; all of them where none is given.
    pub fn status(self, status: WatchStatus) -> (r: Self)
        ensures
            r@ == (UserAnimeListApiGetView { status: Some(status), ..self@ }),
    {
        UserAnimeListApiGet { status: Some(status), ..self }
    }

    /// How to order the entries.
    pub fn sort(self, sort: AnimeSort) -> (r: Self)
        ensures
            r@ == (UserAnimeListApiGetView { sort: Some(sort), ..self@ }),
    {
        UserAnimeListApiGet { sort: Some(sort), ..self }
    }

    /// How many items at most; the API takes 100 where none is given. A number above 1000 is
    /// held at 1000.
    pub fn limit(self, limit: u16) -> (r: Self)
        ensures
            r@ == (UserAnimeListApiGetView { limit: Some(capped(limit as u64, 1000)), ..self@ }),
    {
        UserAnimeListApiGet { limit: Some(cap_u16(limit, 1000)), ..self }
    }

    /// How many items to skip; the API skips none where nothing is given.
    pub fn offset(self, offset: u64) -> (r: Self)
        ensures
            r@ == (UserAnimeListApiGetView { offset: Some(offset), ..self@ }),
    {
        UserAnimeListApiGet { offset: Some(offset), ..self }
    }

    /// Which fields of each item the answer holds: their names, joined with commas.
    pub fn fields(self, fields: Vec<String>) -> (r: Self)
        ensures
            r@ == (UserAnimeListApiGetView {
                fields: Some(joined(fields.deep_view(), seq![','])),
                ..self@
            }),
    {
        UserAnimeListApiGet { fields: Some(join_with_commas(&fields)), ..self }
    }

    /// Whether the answer may hold what is not safe for work.
    pub fn nsfw(self, nsfw: bool) -> (r: Self)
        ensures
            r@ == (UserAnimeListApiGetView { nsfw: Some(nsfw), ..self@ }),
    {
        UserAnimeListApiGet { nsfw: Some(nsfw), ..self }
    }

    /// The parameters of the query string, in their order: those that are set.
    pub fn params(&self) -> (params: Vec<Param>)
        ensures
            params.deep_view() == self@.pairs(),
    {
        let mut params: Vec<Param> = Vec::new();
        assert(params.deep_view() =~= Seq::empty());
        push_name(
            &mut params,
            "status",
            match self.status {
                Some(v) => Some(v.as_str()),
                None => None,
            },
        );
        push_name(
            &mut params,
            "sort",
            match self.sort {
                Some(v) => Some(v.as_str()),
                None => None,
            },
        );
        push_number(
            &mut params,
            "limit",
            match self.limit {
                Some(n) => Some(n as u64),
                None => None,
            },
        );
        push_number(&mut params, "offset", self.offset);
        push_text(&mut params, "fields", &self.fields);
        push_bool(&mut params, "nsfw", self.nsfw);
        assert(params.deep_view() =~= self@.pairs());
        params
    }

    /// Whether `user_name` is set, so that the call can be described.
    pub fn is_ready(&self) -> (ready: bool)
        ensures
            ready == (self@.user_name is Some),
    {
        self.user_name.is_some()
    }

    /// Describes the call. The user has to be set. The call is made on behalf of the user where
    /// the list is the user's own, else with the client id.
    pub fn request(&self) -> (r: Result<ApiRequest, ApiError>)
        requires
            self@.user_name is Some,
        ensures
            describes_get(r, self@.path(), self@.pairs(), self@.is_auth()),
    {
        let path = concat_text(
            concat_text(
                USER_ANIMELIST_PREFIX,
                self.user_name.as_ref().unwrap().to_string().as_str(),
            ).as_str(),
            USER_ANIMELIST_SUFFIX,
        );
        get_with_query(path.as_str(), &self.params(), self.user_name.as_ref().unwrap().is_me())
    }
}

} // verus!
