//! The forum endpoints.

use crate::api::{cap_u8, capped, describes_get, get_with_query, id_path, path_with_id};
use crate::api_request::{ApiError, ApiRequest, RequestMethod};
use crate::auth::opt_text;
use crate::objects::ForumSort;
use crate::query::{Param, opt_decimal, opt_pair, push_name, push_number, push_text};
use vstd::prelude::*;

verus! {

/// The boards of the forum.
pub const FORUM_BOARDS: &'static str = "https://api.myanimelist.net/v2/forum/boards";

/// What stands before the id in the URL of one topic.
pub const FORUM_TOPIC_PREFIX: &'static str = "https://api.myanimelist.net/v2/forum/topic/";

/// The topics of the forum.
pub const FORUM_TOPICS: &'static str = "https://api.myanimelist.net/v2/forum/topics";

/// The forum endpoints.
#[derive(Debug)]
pub struct ForumApi {}

impl ForumApi {
    /// The forum endpoints.
    pub fn new() -> ForumApi {
        ForumApi {}
    }

    /// The endpoints that read.
    pub fn get(&self) -> ForumApiGet {
        ForumApiGet {}
    }
}

/// The forum endpoints that read.
#[derive(Debug)]
pub struct ForumApiGet {}

impl ForumApiGet {
    /// The boards of the forum.
    pub fn boards(self) -> ForumApiGetBoards {
        ForumApiGetBoards {}
    }

    /// One topic with its posts.
    pub fn topic_detail(self) -> (r: ForumApiGetTopicDetail)
        ensures
            r@ == ForumApiGetTopicDetailView::unset(),
    {
        ForumApiGetTopicDetail { topic_id: None, limit: None, offset: None }
    }

    /// The topics of the forum.
    pub fn topics(self) -> (r: ForumApiGetTopics)
        ensures
            r@ == ForumApiGetTopicsView::unset(),
    {
        ForumApiGetTopics {
            board_id: None,
            subboard_id: None,
            limit: None,
            offset: None,
            sort: None,
            q: None,
            topic_user_name: None,
            user_name: None,
        }
    }
}

/// Reads the boards of the forum.
#[derive(Debug, Clone)]
pub struct ForumApiGetBoards {
}

impl ForumApiGetBoards {
    /// Describes the call. The call reads the boards with the client id; it has no parameters.
    pub fn request(&self) -> (call: ApiRequest)
        ensures
            call.method == RequestMethod::Get,
            call.url@ == FORUM_BOARDS@,
            call.data is None,
            !call.is_auth,
    {
        ApiRequest::get(FORUM_BOARDS.to_owned(), false)
    }
}

/// Reads one topic with its posts.
#[derive(Debug, Clone)]
pub struct ForumApiGetTopicDetail {
    topic_id: Option<u64>,
    limit: Option<u8>,
    offset: Option<u64>,
}

/// The mathematical value of [`ForumApiGetTopicDetail`].
pub struct ForumApiGetTopicDetailView {
    pub topic_id: Option<u64>,
    pub limit: Option<u64>,
    pub offset: Option<u64>,
}

impl View for ForumApiGetTopicDetail {
    type V = ForumApiGetTopicDetailView;

    closed spec fn view(&self) -> ForumApiGetTopicDetailView {
        ForumApiGetTopicDetailView {
            topic_id: self.topic_id,
            limit: match self.limit {
                Some(n) => Some(n as u64),
                None => None,
            },
            offset: self.offset,
        }
    }
}

impl ForumApiGetTopicDetailView {
    /// No parameter is set.
    pub open spec fn unset() -> ForumApiGetTopicDetailView {
        ForumApiGetTopicDetailView {
            topic_id: None,
            limit: None,
            offset: None,
        }
    }

    /// The parameters of the query string, in their order: those that are set.
    pub open spec fn pairs(self) -> Seq<(Seq<char>, Seq<char>)> {
        opt_pair("limit"@, opt_decimal(self.limit))
            + opt_pair("offset"@, opt_decimal(self.offset))
    }

    /// The path of the call.
    pub open spec fn path(self) -> Seq<char> {
        id_path(FORUM_TOPIC_PREFIX@, self.topic_id->0, ""@)
    }
}

impl ForumApiGetTopicDetail {
    /// The id of the topic. It has to be set.
    pub fn topic_id(self, topic_id: u64) -> (r: Self)
        ensures
            r@ == (ForumApiGetTopicDetailView { topic_id: Some(topic_id), ..self@ }),
    {
        ForumApiGetTopicDetail { topic_id: Some(topic_id), ..self }
    }

    /// How many items at most; the API takes 100 where none is given. A number above 100 is
    /// held at 100.
    pub fn limit(self, limit: u8) -> (r: Self)
        ensures
            r@ == (ForumApiGetTopicDetailView { limit: Some(capped(limit as u64, 100)), ..self@ }),
    {
        ForumApiGetTopicDetail { limit: Some(cap_u8(limit, 100)), ..self }
    }

    /// How many items to skip; the API skips none where nothing is given.
    pub fn offset(self, offset: u64) -> (r: Self)
        ensures
            r@ == (ForumApiGetTopicDetailView { offset: Some(offset), ..self@ }),
    {
        ForumApiGetTopicDetail { offset: Some(offset), ..self }
    }

    /// The parameters of the query string, in their order: those that are set.
    pub fn params(&self) -> (params: Vec<Param>)
        ensures
            params.deep_view() == self@.pairs(),
    {
        let mut params: Vec<Param> = Vec::new();
        assert(params.deep_view() =~= Seq::empty());
        push_number(
            &mut params,
            "limit",
            match self.limit {
                Some(n) => Some(n as u64),
                None => None,
            },
        );
        push_number(&mut params, "offset", self.offset);
        assert(params.deep_view() =~= self@.pairs());
        params
    }

    /// Whether `topic_id` is set, so that the call can be described.
    pub fn is_ready(&self) -> (ready: bool)
        ensures
            ready == (self@.topic_id is Some),
    {
        self.topic_id.is_some()
    }

    /// Describes the call. The id has to be set. The call reads the topic with the client id.
    pub fn request(&self) -> (r: Result<ApiRequest, ApiError>)
        requires
            self@.topic_id is Some,
        ensures
            describes_get(r, self@.path(), self@.pairs(), false),
    {
        let path = path_with_id(FORUM_TOPIC_PREFIX, self.topic_id.unwrap(), "");
        get_with_query(path.as_str(), &self.params(), false)
    }
}

/// Reads the topics of the forum.
#[derive(Debug, Clone)]
pub struct ForumApiGetTopics {
    board_id: Option<u64>,
    subboard_id: Option<u64>,
    limit: Option<u8>,
    offset: Option<u64>,
    sort: Option<ForumSort>,
    q: Option<String>,
    topic_user_name: Option<String>,
    user_name: Option<String>,
}

/// The mathematical value of [`ForumApiGetTopics`].
pub struct ForumApiGetTopicsView {
    pub board_id: Option<u64>,
    pub subboard_id: Option<u64>,
    pub limit: Option<u64>,
    pub offset: Option<u64>,
    pub sort: Option<ForumSort>,
    pub q: Option<Seq<char>>,
    pub topic_user_name: Option<Seq<char>>,
    pub user_name: Option<Seq<char>>,
}

impl View for ForumApiGetTopics {
    type V = ForumApiGetTopicsView;

    closed spec fn view(&self) -> ForumApiGetTopicsView {
        ForumApiGetTopicsView {
            board_id: self.board_id,
            subboard_id: self.subboard_id,
            limit: match self.limit {
                Some(n) => Some(n as u64),
                None => None,
            },
            offset: self.offset,
            sort: self.sort,
            q: opt_text(self.q),
            topic_user_name: opt_text(self.topic_user_name),
            user_name: opt_text(self.user_name),
        }
    }
}

impl ForumApiGetTopicsView {
    /// No parameter is set.
    pub open spec fn unset() -> ForumApiGetTopicsView {
        ForumApiGetTopicsView {
            board_id: None,
            subboard_id: None,
            limit: None,
            offset: None,
            sort: None,
            q: None,
            topic_user_name: None,
            user_name: None,
        }
    }

    /// The parameters of the query string, in their order: those that are set.
    pub open spec fn pairs(self) -> Seq<(Seq<char>, Seq<char>)> {
        opt_pair("board_id"@, opt_decimal(self.board_id))
            + opt_pair("subboard_id"@, opt_decimal(self.subboard_id))
            + opt_pair("limit"@, opt_decimal(self.limit))
            + opt_pair("offset"@, opt_decimal(self.offset))
            + opt_pair("sort"@, match self.sort {
                Some(v) => Some(v.name()),
                None => None,
            })
            + opt_pair("q"@, self.q)
            + opt_pair("topic_user_name"@, self.topic_user_name)
            + opt_pair("user_name"@, self.user_name)
    }

    /// The path of the call.
    pub open spec fn path(self) -> Seq<char> {
        FORUM_TOPICS@
    }
}

impl ForumApiGetTopics {
    /// Only the topics of this board.
    pub fn board_id(self, board_id: u64) -> (r: Self)
        ensures
            r@ == (ForumApiGetTopicsView { board_id: Some(board_id), ..self@ }),
    {
        ForumApiGetTopics { board_id: Some(board_id), ..self }
    }

    /// Only the topics of this board below a board.
    pub fn subboard_id(self, subboard_id: u64) -> (r: Self)
        ensures
            r@ == (ForumApiGetTopicsView { subboard_id: Some(subboard_id), ..self@ }),
    {
        ForumApiGetTopics { subboard_id: Some(subboard_id), ..self }
    }

    /// How many items at most; the API takes 100 where none is given. A number above 100 is
    /// held at 100.
    pub fn limit(self, limit: u8) -> (r: Self)
        ensures
            r@ == (ForumApiGetTopicsView { limit: Some(capped(limit as u64, 100)), ..self@ }),
    {
        ForumApiGetTopics { limit: Some(cap_u8(limit, 100)), ..self }
    }

    /// How many items to skip; the API skips none where nothing is given.
    pub fn offset(self, offset: u64) -> (r: Self)
        ensures
            r@ == (ForumApiGetTopicsView { offset: Some(offset), ..self@ }),
    {
        ForumApiGetTopics { offset: Some(offset), ..self }
    }

    /// How to order the topics; the API takes the most recent first where nothing is given.
    pub fn sort(self, sort: ForumSort) -> (r: Self)
        ensures
            r@ == (ForumApiGetTopicsView { sort: Some(sort), ..self@ }),
    {
        ForumApiGetTopics { sort: Some(sort), ..self }
    }

    /// What to search for.
    pub fn q(self, q: &str) -> (r: Self)
        ensures
            r@ == (ForumApiGetTopicsView { q: Some(q@), ..self@ }),
    {
        ForumApiGetTopics { q: Some(q.to_owned()), ..self }
    }

    /// Only the topics that this user began.
    pub fn topic_user_name(self, topic_user_name: &str) -> (r: Self)
        ensures
            r@ == (ForumApiGetTopicsView { topic_user_name: Some(topic_user_name@), ..self@ }),
    {
        ForumApiGetTopics { topic_user_name: Some(topic_user_name.to_owned()), ..self }
    }

    /// Only the topics that this user wrote in.
    pub fn user_name(self, user_name: &str) -> (r: Self)
        ensures
            r@ == (ForumApiGetTopicsView { user_name: Some(user_name@), ..self@ }),
    {
        ForumApiGetTopics { user_name: Some(user_name.to_owned()), ..self }
    }

    /// The parameters of the query string, in their order: those that are set.
    pub fn params(&self) -> (params: Vec<Param>)
        ensures
            params.deep_view() == self@.pairs(),
    {
        let mut params: Vec<Param> = Vec::new();
        assert(params.deep_view() =~= Seq::empty());
        push_number(&mut params, "board_id", self.board_id);
        push_number(&mut params, "subboard_id", self.subboard_id);
        push_number(
            &mut params,
            "limit",
            match self.limit {
                Some(n) => Some(n as u64),
                None => None,
            },
        );
        push_number(&mut params, "offset", self.offset);
        push_name(
            &mut params,
            "sort",
            match self.sort {
                Some(v) => Some(v.as_str()),
                None => None,
            },
        );
        push_text(&mut params, "q", &self.q);
        push_text(&mut params, "topic_user_name", &self.topic_user_name);
        push_text(&mut params, "user_name", &self.user_name);
        assert(params.deep_view() =~= self@.pairs());
        params
    }

    /// Describes the call. The call reads the topics with the client id.
    pub fn request(&self) -> (r: Result<ApiRequest, ApiError>)
        ensures
            describes_get(r, self@.path(), self@.pairs(), false),
    {
        let path = FORUM_TOPICS;
        get_with_query(path, &self.params(), false)
    }
}

} // verus!
