//! The endpoints of a user's manga list.

use crate::api::{cap_u16, cap_u8, capped, describes_get, get_with_query, id_path, path_with_id};
use crate::api_request::{ApiError, ApiRequest, RequestMethod};
use crate::auth::opt_text;
use crate::objects::{MangaSort, ReadStatus, Username};
use crate::query::{
    Param, join_with_commas, opt_bool, opt_decimal, opt_pair, push_bool, push_name, push_number,
    push_text,
};
use crate::text::{concat_text, joined};
use vstd::prelude::*;

verus! {

/// What stands before the user's name in the URL of a user's manga list.
pub const USER_MANGALIST_PREFIX: &'static str = "https://api.myanimelist.net/v2/users/";

/// What stands behind the user's name in the URL of a user's manga list.
pub const USER_MANGALIST_SUFFIX: &'static str = "/mangalist";

/// What stands before the id in the URL of a manga's entry in the user's list.
pub const USER_MANGA_ID_PREFIX: &'static str = "https://api.myanimelist.net/v2/manga/";

/// What stands behind the id in the URL of a manga's entry in the user's list.
pub const USER_MANGA_ID_SUFFIX: &'static str = "/my_list_status";

/// The endpoints of a user's manga list.
#[derive(Debug, Clone)]
pub struct UserMangaListApi {}

impl UserMangaListApi {
    /// The endpoints of a user's manga list.
    pub fn new() -> UserMangaListApi {
        UserMangaListApi {}
    }

    /// Reads a user's manga list.
    pub fn get(&self) -> (r: UserMangaListApiGet)
        ensures
            r@ == UserMangaListApiGetView::unset(),
    {
        UserMangaListApiGet {
            user_name: None,
            status: None,
            sort: None,
            limit: None,
            offset: None,
            fields: None,
            nsfw: None,
        }
    }

    /// Adds a manga to the user's list, or changes its entry. Only the values that are set are
    /// changed.
    pub fn put(&self) -> (r: UserMangaListApiPut)
        ensures
            r@ == UserMangaListApiPutView::unset(),
    {
        UserMangaListApiPut {
            manga_id: None,
            status: None,
            is_rereading: None,
            score: None,
            num_volumes_read: None,
            num_chapters_read: None,
            priority: None,
            num_times_reread: None,
            reread_value: None,
            tags: None,
            comments: None,
        }
    }

    /// Takes a manga off the user's list. Where it is not on the list the API answers that
    /// there is no such thing.
    pub fn delete(&self) -> (r: UserMangaListApiDelete)
        ensures
            r@ == UserMangaListApiDeleteView::unset(),
    {
        UserMangaListApiDelete { manga_id: None }
    }
}

/// Adds a manga to the user's list, or changes its entry.
#[derive(Debug, Clone)]
pub struct UserMangaListApiPut {
    manga_id: Option<u64>,
    status: Option<ReadStatus>,
    is_rereading: Option<bool>,
    score: Option<u8>,
    num_volumes_read: Option<u64>,
    num_chapters_read: Option<u64>,
    priority: Option<u8>,
    num_times_reread: Option<u64>,
    reread_value: Option<u8>,
    tags: Option<String>,
    comments: Option<String>,
}

/// The mathematical value of [`UserMangaListApiPut`].
pub struct UserMangaListApiPutView {
    pub manga_id: Option<u64>,
    pub status: Option<ReadStatus>,
    pub is_rereading: Option<bool>,
    pub score: Option<u64>,
    pub num_volumes_read: Option<u64>,
    pub num_chapters_read: Option<u64>,
    pub priority: Option<u64>,
    pub num_times_reread: Option<u64>,
    pub reread_value: Option<u64>,
    pub tags: Option<Seq<char>>,
    pub comments: Option<Seq<char>>,
}

impl View for UserMangaListApiPut {
    type V = UserMangaListApiPutView;

    closed spec fn view(&self) -> UserMangaListApiPutView {
        UserMangaListApiPutView {
            manga_id: self.manga_id,
            status: self.status,
            is_rereading: self.is_rereading,
            score: match self.score {
                Some(n) => Some(n as u64),
                None => None,
            },
            num_volumes_read: self.num_volumes_read,
            num_chapters_read: self.num_chapters_read,
            priority: match self.priority {
                Some(n) => Some(n as u64),
                None => None,
            },
            num_times_reread: self.num_times_reread,
            reread_value: match self.reread_value {
                Some(n) => Some(n as u64),
                None => None,
            },
            tags: opt_text(self.tags),
            comments: opt_text(self.comments),
        }
    }
}

impl UserMangaListApiPutView {
    /// No parameter is set.
    pub open spec fn unset() -> UserMangaListApiPutView {
        UserMangaListApiPutView {
            manga_id: None,
            status: None,
            is_rereading: None,
            score: None,
            num_volumes_read: None,
            num_chapters_read: None,
            priority: None,
            num_times_reread: None,
            reread_value: None,
            tags: None,
            comments: None,
        }
    }

    /// The fields of the form, in their order: those that are set.
    pub open spec fn pairs(self) -> Seq<(Seq<char>, Seq<char>)> {
        opt_pair("status"@, match self.status {
                Some(v) => Some(v.name()),
                None => None,
            })
            + opt_pair("is_rereading"@, opt_bool(self.is_rereading))
            + opt_pair("score"@, opt_decimal(self.score))
            + opt_pair("num_volumes_read"@, opt_decimal(self.num_volumes_read))
            + opt_pair("num_chapters_read"@, opt_decimal(self.num_chapters_read))
            + opt_pair("priority"@, opt_decimal(self.priority))
            + opt_pair("num_times_reread"@, opt_decimal(self.num_times_reread))
            + opt_pair("reread_value"@, opt_decimal(self.reread_value))
            + opt_pair("tags"@, self.tags)
            + opt_pair("comments"@, self.comments)
    }

    /// The path of the call.
    pub open spec fn path(self) -> Seq<char> {
        id_path(USER_MANGA_ID_PREFIX@, self.manga_id->0, USER_MANGA_ID_SUFFIX@)
    }
}

impl UserMangaListApiPut {
    /// The id of the manga. It has to be set.
    pub fn manga_id(self, manga_id: u64) -> (r: Self)
        ensures
            r@ == (UserMangaListApiPutView { manga_id: Some(manga_id), ..self@ }),
    {
        UserMangaListApiPut { manga_id: Some(manga_id), ..self }
    }

    /// Where the user stands with the manga.
    pub fn status(self, status: ReadStatus) -> (r: Self)
        ensures
            r@ == (UserMangaListApiPutView { status: Some(status), ..self@ }),
    {
        UserMangaListApiPut { status: Some(status), ..self }
    }

    /// Whether the user is reading it again.
    pub fn is_rereading(self, is_rereading: bool) -> (r: Self)
        ensures
            r@ == (UserMangaListApiPutView { is_rereading: Some(is_rereading), ..self@ }),
    {
        UserMangaListApiPut { is_rereading: Some(is_rereading), ..self }
    }

    /// The score, from 0 to 10. A number above 10 is held at 10.
    pub fn score(self, score: u8) -> (r: Self)
        ensures
            r@ == (UserMangaListApiPutView { score: Some(capped(score as u64, 10)), ..self@ }),
    {
        UserMangaListApiPut { score: Some(cap_u8(score, 10)), ..self }
    }

    /// How many volumes the user has read.
    pub fn num_volumes_read(self, num_volumes_read: u64) -> (r: Self)
        ensures
            r@ == (UserMangaListApiPutView { num_volumes_read: Some(num_volumes_read), ..self@ }),
    {
        UserMangaListApiPut { num_volumes_read: Some(num_volumes_read), ..self }
    }

    /// How many chapters the user has read.
    pub fn num_chapters_read(self, num_chapters_read: u64) -> (r: Self)
        ensures
            r@ == (UserMangaListApiPutView { num_chapters_read: Some(num_chapters_read), ..self@ }),
    {
        UserMangaListApiPut { num_chapters_read: Some(num_chapters_read), ..self }
    }

    /// The priority, from 0 to 2. A number above 2 is held at 2.
    pub fn priority(self, priority: u8) -> (r: Self)
        ensures
            r@ == (UserMangaListApiPutView { priority: Some(capped(priority as u64, 2)), ..self@ }),
    {
        UserMangaListApiPut { priority: Some(cap_u8(priority, 2)), ..self }
    }

    /// How many times the user has read it again.
    pub fn num_times_reread(self, num_times_reread: u64) -> (r: Self)
        ensures
            r@ == (UserMangaListApiPutView { num_times_reread: Some(num_times_reread), ..self@ }),
    {
        UserMangaListApiPut { num_times_reread: Some(num_times_reread), ..self }
    }

    /// How much it is worth reading again, from 0 to 5. A number above 5 is held at 5.
    pub fn reread_value(self, reread_value: u8) -> (r: Self)
        ensures
            r@ == (UserMangaListApiPutView {
                reread_value: Some(capped(reread_value as u64, 5)),
                ..self@
            }),
    {
        UserMangaListApiPut { reread_value: Some(cap_u8(reread_value, 5)), ..self }
    }

    /// The tags.
    pub fn tags(self, tags: &str) -> (r: Self)
        ensures
            r@ == (UserMangaListApiPutView { tags: Some(tags@), ..self@ }),
    {
        UserMangaListApiPut { tags: Some(tags.to_owned()), ..self }
    }

    /// The comments.
    pub fn comments(self, comments: &str) -> (r: Self)
        ensures
            r@ == (UserMangaListApiPutView { comments: Some(comments@), ..self@ }),
    {
        UserMangaListApiPut { comments: Some(comments.to_owned()), ..self }
    }

    /// The fields of the form, in their order: those that are set.
    pub fn params(&self) -> (params: Vec<Param>)
        ensures
            params.deep_view() == self@.pairs(),
    {
        let mut params: Vec<Param> = Vec::new();
        assert(params.deep_view() =~= Seq::empty());
        push_name(
            &mut params,
            "status",
            match self.status {
                Some(v) => Some(v.as_str()),
                None => None,
            },
        );
        push_bool(&mut params, "is_rereading", self.is_rereading);
        push_number(
            &mut params,
            "score",
            match self.score {
                Some(n) => Some(n as u64),
                None => None,
            },
        );
        push_number(&mut params, "num_volumes_read", self.num_volumes_read);
        push_number(&mut params, "num_chapters_read", self.num_chapters_read);
        push_number(
            &mut params,
            "priority",
            match self.priority {
                Some(n) => Some(n as u64),
                None => None,
            },
        );
        push_number(&mut params, "num_times_reread", self.num_times_reread);
        push_number(
            &mut params,
            "reread_value",
            match self.reread_value {
                Some(n) => Some(n as u64),
                None => None,
            },
        );
        push_text(&mut params, "tags", &self.tags);
        push_text(&mut params, "comments", &self.comments);
        assert(params.deep_view() =~= self@.pairs());
        params
    }

    /// Whether `manga_id` is set, so that the call can be described.
    pub fn is_ready(&self) -> (ready: bool)
        ensures
            ready == (self@.manga_id is Some),
    {
        self.manga_id.is_some()
    }

    /// Describes the call. The id has to be set. The call writes the values that are set, as a
    /// form, on behalf of the user.
    pub fn request(&self) -> (call: ApiRequest)
        requires
            self@.manga_id is Some,
        ensures
            call.method == RequestMethod::Put,
            call.url@ == self@.path(),
            call.data is Some,
            call.data->0.deep_view() == self@.pairs(),
            call.is_auth,
    {
        let path = path_with_id(USER_MANGA_ID_PREFIX, self.manga_id.unwrap(), USER_MANGA_ID_SUFFIX);
        ApiRequest::put(path, Some(self.params()), true)
    }
}

/// Takes a manga off the user's list.
#[derive(Debug, Clone)]
pub struct UserMangaListApiDelete {
    manga_id: Option<u64>,
}

/// The mathematical value of [`UserMangaListApiDelete`].
pub struct UserMangaListApiDeleteView {
    pub manga_id: Option<u64>,
}

impl View for UserMangaListApiDelete {
    type V = UserMangaListApiDeleteView;

    closed spec fn view(&self) -> UserMangaListApiDeleteView {
        UserMangaListApiDeleteView {
            manga_id: self.manga_id,
        }
    }
}

impl UserMangaListApiDeleteView {
    /// No parameter is set.
    pub open spec fn unset() -> UserMangaListApiDeleteView {
        UserMangaListApiDeleteView {
            manga_id: None,
        }
    }

    /// The parameters of the query string, in their order: those that are set.
    pub open spec fn pairs(self) -> Seq<(Seq<char>, Seq<char>)> {
        Seq::empty()
    }

    /// The path of the call.
    pub open spec fn path(self) -> Seq<char> {
        id_path(USER_MANGA_ID_PREFIX@, self.manga_id->0, USER_MANGA_ID_SUFFIX@)
    }
}

impl UserMangaListApiDelete {
    /// The id of the manga. It has to be set.
    pub fn manga_id(self, manga_id: u64) -> (r: Self)
        ensures
            r@ == (UserMangaListApiDeleteView { manga_id: Some(manga_id), ..self@ }),
    {
        UserMangaListApiDelete { manga_id: Some(manga_id), ..self }
    }

    /// Whether `manga_id` is set, so that the call can be described.
    pub fn is_ready(&self) -> (ready: bool)
        ensures
            ready == (self@.manga_id is Some),
    {
        self.manga_id.is_some()
    }

    /// Describes the call. The id has to be set. The call is made on behalf of the user.
    pub fn request(&self) -> (call: ApiRequest)
        requires
            self@.manga_id is Some,
        ensures
            call.method == RequestMethod::Delete,
            call.url@ == self@.path(),
            call.data is None,
            call.is_auth,
    {
        let path = path_with_id(USER_MANGA_ID_PREFIX, self.manga_id.unwrap(), USER_MANGA_ID_SUFFIX);
        ApiRequest::delete(path, true)
    }
}

/// Reads a user's manga list.
#[derive(Debug, Clone)]
pub struct UserMangaListApiGet {
    user_name: Option<Username>,
    status: Option<ReadStatus>,
    sort: Option<MangaSort>,
    limit: Option<u16>,
    offset: Option<u64>,
    fields: Option<String>,
    nsfw: Option<bool>,
}

/// The mathematical value of [`UserMangaListApiGet`].
pub struct UserMangaListApiGetView {
    pub user_name: Option<Username>,
    pub status: Option<ReadStatus>,
    pub sort: Option<MangaSort>,
    pub limit: Option<u64>,
    pub offset: Option<u64>,
    pub fields: Option<Seq<char>>,
    pub nsfw: Option<bool>,
}

impl View for UserMangaListApiGet {
    type V = UserMangaListApiGetView;

    closed spec fn view(&self) -> UserMangaListApiGetView {
        UserMangaListApiGetView {
            user_name: self.user_name,
            status: self.status,
            sort: self.sort,
            limit: match self.limit {
                Some(n) => Some(n as u64),
                None => None,
            },
            offset: self.offset,
            fields: opt_text(self.fields),
            nsfw: self.nsfw,
        }
    }
}

impl UserMangaListApiGetView {
    /// No parameter is set.
    pub open spec fn unset() -> UserMangaListApiGetView {
        UserMangaListApiGetView {
            user_name: None,
            status: None,
            sort: None,
            limit: None,
            offset: None,
            fields: None,
            nsfw: None,
        }
    }

    /// The parameters of the query string, in their order: those that are set.
    pub open spec fn pairs(self) -> Seq<(Seq<char>, Seq<char>)> {
        opt_pair("status"@, match self.status {
                Some(v) => Some(v.name()),
                None => None,
            })
            + opt_pair("sort"@, match self.sort {
                Some(v) => Some(v.name()),
                None => None,
            })
            + opt_pair("limit"@, opt_decimal(self.limit))
            + opt_pair("offset"@, opt_decimal(self.offset))
            + opt_pair("fields"@, self.fields)
            + opt_pair("nsfw"@, opt_bool(self.nsfw))
    }

    /// The path of the call.
    pub open spec fn path(self) -> Seq<char> {
        USER_MANGALIST_PREFIX@ + self.user_name->0.name() + USER_MANGALIST_SUFFIX@
    }

    /// Whether the call is made on behalf of the user.
    pub open spec fn is_auth(self) -> bool {
        self.user_name->0 is Me
    }
}

impl UserMangaListApiGet {
    /// Whose list. It has to be set.
    pub fn user_name(self, user_name: Username) -> (r: Self)
        ensures
            r@ == (UserMangaListApiGetView { user_name: Some(user_name), ..self@ }),
    {
        UserMangaListApiGet { user_name: Some(user_name), ..self }
    }

    /// Only the entries with this status; all of them where none is given.
    pub fn status(self, status: ReadStatus) -> (r: Self)
        ensures
            r@ == (UserMangaListApiGetView { status: Some(status), ..self@ }),
    {
        UserMangaListApiGet { status: Some(status), ..self }
    }

    /// How to order the entries.
    pub fn sort(self, sort: MangaSort) -> (r: Self)
        ensures
            r@ == (UserMangaListApiGetView { sort: Some(sort), ..self@ }),
    {
        UserMangaListApiGet { sort: Some(sort), ..self }
    }

    /// How many items at most; the API takes 100 where none is given. A number above 1000 is
    /// held at 1000.
    pub fn limit(self, limit: u16) -> (r: Self)
        ensures
            r@ == (UserMangaListApiGetView { limit: Some(capped(limit as u64, 1000)), ..self@ }),
    {
        UserMangaListApiGet { limit: Some(cap_u16(limit, 1000)), ..self }
    }

    /// How many items to skip; the API skips none where nothing is given.
    pub fn offset(self, offset: u64) -> (r: Self)
        ensures
            r@ == (UserMangaListApiGetView { offset: Some(offset), ..self@ }),
    {
        UserMangaListApiGet { offset: Some(offset), ..self }
    }

    /// Which fields of each item the answer holds: their names, joined with commas.
    pub fn fields(self, fields: Vec<String>) -> (r: Self)
        ensures
            r@ == (UserMangaListApiGetView {
                fields: Some(joined(fields.deep_view(), seq![','])),
                ..self@
            }),
    {
        UserMangaListApiGet { fields: Some(join_with_commas(&fields)), ..self }
    }

    /// Whether the answer may hold what is not safe for work.
    pub fn nsfw(self, nsfw: bool) -> (r: Self)
        ensures
            r@ == (UserMangaListApiGetView { nsfw: Some(nsfw), ..self@ }),
    {
        UserMangaListApiGet { nsfw: Some(nsfw), ..self }
    }

    /// The parameters of the query string, in their order: those that are set.
    pub fn params(&self) -> (params: Vec<Param>)
        ensures
            params.deep_view() == self@.pairs(),
    {
        let mut params: Vec<Param> = Vec::new();
        assert(params.deep_view() =~= Seq::empty());
        push_name(
            &mut params,
            "status",
            match self.status {
                Some(v) => Some(v.as_str()),
                None => None,
            },
        );
        push_name(
            &mut params,
            "sort",
            match self.sort {
                Some(v) => Some(v.as_str()),
                None => None,
            },
        );
        push_number(
            &mut params,
            "limit",
            match self.limit {
                Some(n) => Some(n as u64),
                None => None,
            },
        );
        push_number(&mut params, "offset", self.offset);
        push_text(&mut params, "fields", &self.fields);
        push_bool(&mut params, "nsfw", self.nsfw);
        assert(params.deep_view() =~= self@.pairs());
        params
    }

    /// Whether `user_name` is set, so that the call can be described.
    pub fn is_ready(&self) -> (ready: bool)
        ensures
            ready == (self@.user_name is Some),
    {
        self.user_name.is_some()
    }

    /// Describes the call. The user has to be set. The call is made on behalf of the user where
    /// the list is the user's own, else with the client id.
    pub fn request(&self) -> (r: Result<ApiRequest, ApiError>)
        requires
            self@.user_name is Some,
        ensures
            describes_get(r, self@.path(), self@.pairs(), self@.is_auth()),
    {
        let path = concat_text(
            concat_text(
                USER_MANGALIST_PREFIX,
                self.user_name.as_ref().unwrap().to_string().as_str(),
            ).as_str(),
            USER_MANGALIST_SUFFIX,
        );
        get_with_query(path.as_str(), &self.params(), self.user_name.as_ref().unwrap().is_me())
    }
}

} // verus!
