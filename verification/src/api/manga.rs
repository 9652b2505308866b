//! The manga endpoints.

use crate::api::{cap_u16, capped, describes_get, get_with_query, id_path, path_with_id};
use crate::api_request::{ApiError, ApiRequest};
use crate::auth::opt_text;
use crate::objects::MangaRankingType;
use crate::query::{
    Param, join_with_commas, opt_bool, opt_decimal, opt_pair, push_bool, push_name, push_number,
    push_text,
};
use crate::text::joined;
use vstd::prelude::*;

verus! {

/// The list and search of manga.
pub const MANGA: &'static str = "https://api.myanimelist.net/v2/manga";

/// What stands before the id in the URL of one manga.
pub const MANGA_ID_PREFIX: &'static str = "https://api.myanimelist.net/v2/manga/";

/// The rankings of manga.
pub const MANGA_RANKING: &'static str = "https://api.myanimelist.net/v2/manga/ranking";

/// The manga endpoints.
#[derive(Debug)]
pub struct MangaApi {}

impl MangaApi {
    /// The manga endpoints.
    pub fn new() -> MangaApi {
        MangaApi {}
    }

    /// The endpoints that read.
    pub fn get(&self) -> MangaApiGet {
        MangaApiGet {}
    }
}

/// The manga endpoints that read.
#[derive(Debug)]
pub struct MangaApiGet {}

impl MangaApiGet {
    /// The list and search of manga.
    pub fn list(self) -> (r: MangaApiGetList)
        ensures
            r@ == MangaApiGetListView::unset(),
    {
        MangaApiGetList { q: None, limit: None, offset: None, fields: None, nsfw: None }
    }

    /// One manga.
    pub fn details(self) -> (r: MangaApiGetDetails)
        ensures
            r@ == MangaApiGetDetailsView::unset(),
    {
        MangaApiGetDetails { manga_id: None, fields: None }
    }

    /// A ranking of manga.
    pub fn ranking(self) -> (r: MangaApiGetRanking)
        ensures
            r@ == MangaApiGetRankingView::unset(),
    {
        MangaApiGetRanking {
            ranking_type: None,
            limit: None,
            offset: None,
            fields: None,
            nsfw: None,
        }
    }
}

/// Reads the list of manga, or searches it.
#[derive(Debug, Clone)]
pub struct MangaApiGetList {
    q: Option<String>,
    limit: Option<u16>,
    offset: Option<u64>,
    fields: Option<String>,
    nsfw: Option<bool>,
}

/// The mathematical value of [`MangaApiGetList`].
pub struct MangaApiGetListView {
    pub q: Option<Seq<char>>,
    pub limit: Option<u64>,
    pub offset: Option<u64>,
    pub fields: Option<Seq<char>>,
    pub nsfw: Option<bool>,
}

impl View for MangaApiGetList {
    type V = MangaApiGetListView;

    closed spec fn view(&self) -> MangaApiGetListView {
        MangaApiGetListView {
            q: opt_text(self.q),
            limit: match self.limit {
                Some(n) => Some(n as u64),
                None => None,
            },
            offset: self.offset,
            fields: opt_text(self.fields),
            nsfw: self.nsfw,
        }
    }
}

impl MangaApiGetListView {
    /// No parameter is set.
    pub open spec fn unset() -> MangaApiGetListView {
        MangaApiGetListView {
            q: None,
            limit: None,
            offset: None,
            fields: None,
            nsfw: None,
        }
    }

    /// The parameters of the query string, in their order: those that are set.
    pub open spec fn pairs(self) -> Seq<(Seq<char>, Seq<char>)> {
        opt_pair("q"@, self.q)
            + opt_pair("limit"@, opt_decimal(self.limit))
            + opt_pair("offset"@, opt_decimal(self.offset))
            + opt_pair("fields"@, self.fields)
            + opt_pair("nsfw"@, opt_bool(self.nsfw))
    }

    /// The path of the call.
    pub open spec fn path(self) -> Seq<char> {
        MANGA@
    }
}

impl MangaApiGetList {
    /// What to search for.
    pub fn q(self, q: &str) -> (r: Self)
        ensures
            r@ == (MangaApiGetListView { q: Some(q@), ..self@ }),
    {
        MangaApiGetList { q: Some(q.to_owned()), ..self }
    }

    /// How many items at most; the API takes 100 where none is given, and no more than 100.
    pub fn limit(self, limit: u16) -> (r: Self)
        ensures
            r@ == (MangaApiGetListView { limit: Some(limit as u64), ..self@ }),
    {
        MangaApiGetList { limit: Some(limit), ..self }
    }

    /// How many items to skip; the API skips none where nothing is given.
    pub fn offset(self, offset: u64) -> (r: Self)
        ensures
            r@ == (MangaApiGetListView { offset: Some(offset), ..self@ }),
    {
        MangaApiGetList { offset: Some(offset), ..self }
    }

    /// Which fields of each item the answer holds: their names, joined with commas.
    pub fn fields(self, fields: Vec<String>) -> (r: Self)
        ensures
            r@ == (MangaApiGetListView {
                fields: Some(joined(fields.deep_view(), seq![','])),
                ..self@
            }),
    {
        MangaApiGetList { fields: Some(join_with_commas(&fields)), ..self }
    }

    /// Whether the answer may hold what is not safe for work.
    pub fn nsfw(self, nsfw: bool) -> (r: Self)
        ensures
            r@ == (MangaApiGetListView { nsfw: Some(nsfw), ..self@ }),
    {
        MangaApiGetList { nsfw: Some(nsfw), ..self }
    }

    /// The parameters of the query string, in their order: those that are set.
    pub fn params(&self) -> (params: Vec<Param>)
        ensures
            params.deep_view() == self@.pairs(),
    {
        let mut params: Vec<Param> = Vec::new();
        assert(params.deep_view() =~= Seq::empty());
        push_text(&mut params, "q", &self.q);
        push_number(
            &mut params,
            "limit",
            match self.limit {
                Some(n) => Some(n as u64),
                None => None,
            },
        );
        push_number(&mut params, "offset", self.offset);
        push_text(&mut params, "fields", &self.fields);
        push_bool(&mut params, "nsfw", self.nsfw);
        assert(params.deep_view() =~= self@.pairs());
        params
    }

    /// Describes the call. The call reads the list of manga with the client id.
    pub fn request(&self) -> (r: Result<ApiRequest, ApiError>)
        ensures
            describes_get(r, self@.path(), self@.pairs(), false),
    {
        let path = MANGA;
        get_with_query(path, &self.params(), false)
    }
}

/// Reads one manga.
#[derive(Debug, Clone)]
pub struct MangaApiGetDetails {
    manga_id: Option<u64>,
    fields: Option<String>,
}

/// The mathematical value of [`MangaApiGetDetails`].
pub struct MangaApiGetDetailsView {
    pub manga_id: Option<u64>,
    pub fields: Option<Seq<char>>,
}

impl View for MangaApiGetDetails {
    type V = MangaApiGetDetailsView;

    closed spec fn view(&self) -> MangaApiGetDetailsView {
        MangaApiGetDetailsView {
            manga_id: self.manga_id,
            fields: opt_text(self.fields),
        }
    }
}

impl MangaApiGetDetailsView {
    /// No parameter is set.
    pub open spec fn unset() -> MangaApiGetDetailsView {
        MangaApiGetDetailsView {
            manga_id: None,
            fields: None,
        }
    }

    /// The parameters of the query string, in their order: those that are set.
    pub open spec fn pairs(self) -> Seq<(Seq<char>, Seq<char>)> {
        opt_pair("fields"@, self.fields)
    }

    /// The path of the call.
    pub open spec fn path(self) -> Seq<char> {
        id_path(MANGA_ID_PREFIX@, self.manga_id->0, ""@)
    }
}

impl MangaApiGetDetails {
    /// The id of the manga. It has to be set.
    pub fn manga_id(self, manga_id: u64) -> (r: Self)
        ensures
            r@ == (MangaApiGetDetailsView { manga_id: Some(manga_id), ..self@ }),
    {
        MangaApiGetDetails { manga_id: Some(manga_id), ..self }
    }

    /// Which fields of each item the answer holds: their names, joined with commas.
    pub fn fields(self, fields: Vec<String>) -> (r: Self)
        ensures
            r@ == (MangaApiGetDetailsView {
                fields: Some(joined(fields.deep_view(), seq![','])),
                ..self@
            }),
    {
        MangaApiGetDetails { fields: Some(join_with_commas(&fields)), ..self }
    }

    /// The parameters of the query string, in their order: those that are set.
    pub fn params(&self) -> (params: Vec<Param>)
        ensures
            params.deep_view() == self@.pairs(),
    {
        let mut params: Vec<Param> = Vec::new();
        assert(params.deep_view() =~= Seq::empty());
        push_text(&mut params, "fields", &self.fields);
        assert(params.deep_view() =~= self@.pairs());
        params
    }

    /// Whether `manga_id` is set, so that the call can be described.
    pub fn is_ready(&self) -> (ready: bool)
        ensures
            ready == (self@.manga_id is Some),
    {
        self.manga_id.is_some()
    }

    /// Describes the call. The id has to be set. The call reads the manga with the client id.
    pub fn request(&self) -> (r: Result<ApiRequest, ApiError>)
        requires
            self@.manga_id is Some,
        ensures
            describes_get(r, self@.path(), self@.pairs(), false),
    {
        let path = path_with_id(MANGA_ID_PREFIX, self.manga_id.unwrap(), "");
        get_with_query(path.as_str(), &self.params(), false)
    }
}

/// Reads a ranking of manga.
#[derive(Debug, Clone)]
pub struct MangaApiGetRanking {
    ranking_type: Option<MangaRankingType>,
    limit: Option<u16>,
    offset: Option<u64>,
    fields: Option<String>,
    nsfw: Option<bool>,
}

/// The mathematical value of [`MangaApiGetRanking`].
pub struct MangaApiGetRankingView {
    pub ranking_type: Option<MangaRankingType>,
    pub limit: Option<u64>,
    pub offset: Option<u64>,
    pub fields: Option<Seq<char>>,
    pub nsfw: Option<bool>,
}

impl View for MangaApiGetRanking {
    type V = MangaApiGetRankingView;

    closed spec fn view(&self) -> MangaApiGetRankingView {
        MangaApiGetRankingView {
            ranking_type: self.ranking_type,
            limit: match self.limit {
                Some(n) => Some(n as u64),
                None => None,
            },
            offset: self.offset,
            fields: opt_text(self.fields),
            nsfw: self.nsfw,
        }
    }
}

impl MangaApiGetRankingView {
    /// No parameter is set.
    pub open spec fn unset() -> MangaApiGetRankingView {
        MangaApiGetRankingView {
            ranking_type: None,
            limit: None,
            offset: None,
            fields: None,
            nsfw: None,
        }
    }

    /// The parameters of the query string, in their order: those that are set.
    pub open spec fn pairs(self) -> Seq<(Seq<char>, Seq<char>)> {
        opt_pair("ranking_type"@, match self.ranking_type {
                Some(v) => Some(v.name()),
                None => None,
            })
            + opt_pair("limit"@, opt_decimal(self.limit))
            + opt_pair("offset"@, opt_decimal(self.offset))
            + opt_pair("fields"@, self.fields)
            + opt_pair("nsfw"@, opt_bool(self.nsfw))
    }

    /// The path of the call.
    pub open spec fn path(self) -> Seq<char> {
        MANGA_RANKING@
    }
}

impl MangaApiGetRanking {
    /// Which ranking. It has to be set.
    pub fn ranking_type(self, ranking_type: MangaRankingType) -> (r: Self)
        ensures
            r@ == (MangaApiGetRankingView { ranking_type: Some(ranking_type), ..self@ }),
    {
        MangaApiGetRanking { ranking_type: Some(ranking_type), ..self }
    }

    /// How many items at most; the API takes 100 where none is given. A number above 500 is
    /// held at 500.
    pub fn limit(self, limit: u16) -> (r: Self)
        ensures
            r@ == (MangaApiGetRankingView { limit: Some(capped(limit as u64, 500)), ..self@ }),
    {
        MangaApiGetRanking { limit: Some(cap_u16(limit, 500)), ..self }
    }

    /// How many items to skip; the API skips none where nothing is given.
    pub fn offset(self, offset: u64) -> (r: Self)
        ensures
            r@ == (MangaApiGetRankingView { offset: Some(offset), ..self@ }),
    {
        MangaApiGetRanking { offset: Some(offset), ..self }
    }

    /// Which fields of each item the answer holds: their names, joined with commas.
    pub fn fields(self, fields: Vec<String>) -> (r: Self)
        ensures
            r@ == (MangaApiGetRankingView {
                fields: Some(joined(fields.deep_view(), seq![','])),
                ..self@
            }),
    {
        MangaApiGetRanking { fields: Some(join_with_commas(&fields)), ..self }
    }

    /// Whether the answer may hold what is not safe for work.
    pub fn nsfw(self, nsfw: bool) -> (r: Self)
        ensures
            r@ == (MangaApiGetRankingView { nsfw: Some(nsfw), ..self@ }),
    {
        MangaApiGetRanking { nsfw: Some(nsfw), ..self }
    }

    /// The parameters of the query string, in their order: those that are set.
    pub fn params(&self) -> (params: Vec<Param>)
        ensures
            params.deep_view() == self@.pairs(),
    {
        let mut params: Vec<Param> = Vec::new();
        assert(params.deep_view() =~= Seq::empty());
        push_name(
            &mut params,
            "ranking_type",
            match self.ranking_type {
                Some(v) => Some(v.as_str()),
                None => None,
            },
        );
        push_number(
            &mut params,
            "limit",
            match self.limit {
                Some(n) => Some(n as u64),
                None => None,
            },
        );
        push_number(&mut params, "offset", self.offset);
        push_text(&mut params, "fields", &self.fields);
        push_bool(&mut params, "nsfw", self.nsfw);
        assert(params.deep_view() =~= self@.pairs());
        params
    }

    /// Whether `ranking_type` is set, so that the call can be described.
    pub fn is_ready(&self) -> (ready: bool)
        ensures
            ready == (self@.ranking_type is Some),
    {
        self.ranking_type.is_some()
    }

    /// Describes the call. The ranking has to be set. The call reads it with the client id.
    pub fn request(&self) -> (r: Result<ApiRequest, ApiError>)
        requires
            self@.ranking_type is Some,
        ensures
            describes_get(r, self@.path(), self@.pairs(), false),
    {
        let path = MANGA_RANKING;
        get_with_query(path, &self.params(), false)
    }
}

} // verus!
