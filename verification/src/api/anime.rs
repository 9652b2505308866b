//! The anime endpoints.

use crate::api::{cap_u16, capped, describes_get, get_with_query, id_path, path_with_id};
use crate::api_request::{ApiError, ApiRequest};
use crate::auth::opt_text;
use crate::objects::{AnimeRankingType, AnimeSeasonSort, SeasonType};
use crate::query::{
    Param, join_with_commas, opt_decimal, opt_pair, push_name, push_number, push_text,
};
use crate::text::{concat_text, joined};
use vstd::prelude::*;

verus! {

/// The list and search of anime.
pub const ANIME_URL: &'static str = "https://api.myanimelist.net/v2/anime";

/// What stands before the id in the URL of one anime.
pub const ANIME_ID_PREFIX: &'static str = "https://api.myanimelist.net/v2/anime/";

/// The rankings of anime.
pub const ANIME_RANKING: &'static str = "https://api.myanimelist.net/v2/anime/ranking";

/// What stands before the year in the URL of a season's anime.
pub const ANIME_SEASON_PREFIX: &'static str = "https://api.myanimelist.net/v2/anime/season/";

/// The anime suggested to the user.
pub const ANIME_SUGGESTIONS: &'static str = "https://api.myanimelist.net/v2/anime/suggestions";

/// The anime endpoints.
#[derive(Debug, Clone)]
pub struct AnimeApi {}

impl AnimeApi {
    /// The anime endpoints.
    pub fn new() -> AnimeApi {
        AnimeApi {}
    }

    /// The endpoints that read.
    pub fn get(&self) -> AnimeApiGet {
        AnimeApiGet {}
    }
}

/// The anime endpoints that read.
#[derive(Debug)]
pub struct AnimeApiGet {}

impl AnimeApiGet {
    /// The list and search of anime.
    pub fn list(self) -> (r: AnimeListGet)
        ensures
            r@ == AnimeListGetView::unset(),
    {
        AnimeListGet { q: None, limit: None, offset: None, fields: None }
    }

    /// One anime.
    pub fn details(self) -> (r: AnimeDetailsGet)
        ensures
            r@ == AnimeDetailsGetView::unset(),
    {
        AnimeDetailsGet { anime_id: None, fields: None }
    }

    /// A ranking of anime.
    pub fn ranking(self) -> (r: AnimeRankingGet)
        ensures
            r@ == AnimeRankingGetView::unset(),
    {
        AnimeRankingGet { ranking_type: None, limit: None, offset: None, fields: None }
    }

    /// The anime of a season.
    pub fn seasonal(self) -> (r: AnimeSeasonalGet)
        ensures
            r@ == AnimeSeasonalGetView::unset(),
    {
        AnimeSeasonalGet {
            year: None,
            season: None,
            sort: None,
            limit: None,
            offset: None,
            fields: None,
        }
    }

    /// The anime suggested to the user.
    pub fn suggested(self) -> (r: AnimeSuggestedGet)
        ensures
            r@ == AnimeSuggestedGetView::unset(),
    {
        AnimeSuggestedGet { limit: None, offset: None, fields: None }
    }
}

/// Reads the list of anime, or searches it.
#[derive(Debug, Clone)]
pub struct AnimeListGet {
    q: Option<String>,
    limit: Option<u32>,
    offset: Option<u32>,
    fields: Option<String>,
}

/// The mathematical value of [`AnimeListGet`].
pub struct AnimeListGetView {
    pub q: Option<Seq<char>>,
    pub limit: Option<u64>,
    pub offset: Option<u64>,
    pub fields: Option<Seq<char>>,
}

impl View for AnimeListGet {
    type V = AnimeListGetView;

    closed spec fn view(&self) -> AnimeListGetView {
        AnimeListGetView {
            q: opt_text(self.q),
            limit: match self.limit {
                Some(n) => Some(n as u64),
                None => None,
            },
            offset: match self.offset {
                Some(n) => Some(n as u64),
                None => None,
            },
            fields: opt_text(self.fields),
        }
    }
}

impl AnimeListGetView {
    /// No parameter is set.
    pub open spec fn unset() -> AnimeListGetView {
        AnimeListGetView {
            q: None,
            limit: None,
            offset: None,
            fields: None,
        }
    }

    /// The parameters of the query string, in their order: those that are set.
    pub open spec fn pairs(self) -> Seq<(Seq<char>, Seq<char>)> {
        opt_pair("q"@, self.q)
            + opt_pair("limit"@, opt_decimal(self.limit))
            + opt_pair("offset"@, opt_decimal(self.offset))
            + opt_pair("fields"@, self.fields)
    }

    /// The path of the call.
    pub open spec fn path(self) -> Seq<char> {
        ANIME_URL@
    }
}

impl AnimeListGet {
    /// What to search for.
    pub fn q(self, q: &str) -> (r: Self)
        ensures
            r@ == (AnimeListGetView { q: Some(q@), ..self@ }),
    {
        AnimeListGet { q: Some(q.to_owned()), ..self }
    }

    /// How many items at most; the API takes 100 where none is given, and no more than 100.
    pub fn limit(self, limit: u32) -> (r: Self)
        ensures
            r@ == (AnimeListGetView { limit: Some(limit as u64), ..self@ }),
    {
        AnimeListGet { limit: Some(limit), ..self }
    }

    /// How many items to skip; the API skips none where nothing is given.
    pub fn offset(self, offset: u32) -> (r: Self)
        ensures
            r@ == (AnimeListGetView { offset: Some(offset as u64), ..self@ }),
    {
        AnimeListGet { offset: Some(offset), ..self }
    }

    /// Which fields of each item the answer holds: their names, joined with commas.
    pub fn fields(self, fields: Vec<String>) -> (r: Self)
        ensures
            r@ == (AnimeListGetView {
                fields: Some(joined(fields.deep_view(), seq![','])),
                ..self@
            }),
    {
        AnimeListGet { fields: Some(join_with_commas(&fields)), ..self }
    }

    /// The parameters of the query string, in their order: those that are set.
    pub fn params(&self) -> (params: Vec<Param>)
        ensures
            params.deep_view() == self@.pairs(),
    {
        let mut params: Vec<Param> = Vec::new();
        assert(params.deep_view() =~= Seq::empty());
        push_text(&mut params, "q", &self.q);
        push_number(
            &mut params,
            "limit",
            match self.limit {
                Some(n) => Some(n as u64),
                None => None,
            },
        );
        push_number(
            &mut params,
            "offset",
            match self.offset {
                Some(n) => Some(n as u64),
                None => None,
            },
        );
        push_text(&mut params, "fields", &self.fields);
        assert(params.deep_view() =~= self@.pairs());
        params
    }

    /// Describes the call. The call reads the list of anime with the client id.
    pub fn request(&self) -> (r: Result<ApiRequest, ApiError>)
        ensures
            describes_get(r, self@.path(), self@.pairs(), false),
    {
        let path = ANIME_URL;
        get_with_query(path, &self.params(), false)
    }
}

/// Reads one anime.
#[derive(Debug, Clone)]
pub struct AnimeDetailsGet {
    anime_id: Option<u64>,
    fields: Option<String>,
}

/// The mathematical value of [`AnimeDetailsGet`].
pub struct AnimeDetailsGetView {
    pub anime_id: Option<u64>,
    pub fields: Option<Seq<char>>,
}

impl View for AnimeDetailsGet {
    type V = AnimeDetailsGetView;

    closed spec fn view(&self) -> AnimeDetailsGetView {
        AnimeDetailsGetView {
            anime_id: self.anime_id,
            fields: opt_text(self.fields),
        }
    }
}

impl AnimeDetailsGetView {
    /// No parameter is set.
    pub open spec fn unset() -> AnimeDetailsGetView {
        AnimeDetailsGetView {
            anime_id: None,
            fields: None,
        }
    }

    /// The parameters of the query string, in their order: those that are set.
    pub open spec fn pairs(self) -> Seq<(Seq<char>, Seq<char>)> {
        opt_pair("fields"@, self.fields)
    }

    /// The path of the call.
    pub open spec fn path(self) -> Seq<char> {
        id_path(ANIME_ID_PREFIX@, self.anime_id->0, ""@)
    }
}

impl AnimeDetailsGet {
    /// The id of the anime. It has to be set.
    pub fn anime_id(self, anime_id: u64) -> (r: Self)
        ensures
            r@ == (AnimeDetailsGetView { anime_id: Some(anime_id), ..self@ }),
    {
        AnimeDetailsGet { anime_id: Some(anime_id), ..self }
    }

    /// Which fields of each item the answer holds: their names, joined with commas.
    pub fn fields(self, fields: Vec<String>) -> (r: Self)
        ensures
            r@ == (AnimeDetailsGetView {
                fields: Some(joined(fields.deep_view(), seq![','])),
                ..self@
            }),
    {
        AnimeDetailsGet { fields: Some(join_with_commas(&fields)), ..self }
    }

    /// The parameters of the query string, in their order: those that are set.
    pub fn params(&self) -> (params: Vec<Param>)
        ensures
            params.deep_view() == self@.pairs(),
    {
        let mut params: Vec<Param> = Vec::new();
        assert(params.deep_view() =~= Seq::empty());
        push_text(&mut params, "fields", &self.fields);
        assert(params.deep_view() =~= self@.pairs());
        params
    }

    /// Whether `anime_id` is set, so that the call can be described.
    pub fn is_ready(&self) -> (ready: bool)
        ensures
            ready == (self@.anime_id is Some),
    {
        self.anime_id.is_some()
    }

    /// Describes the call. The id has to be set. The call reads the anime with the client id.
    pub fn request(&self) -> (r: Result<ApiRequest, ApiError>)
        requires
            self@.anime_id is Some,
        ensures
            describes_get(r, self@.path(), self@.pairs(), false),
    {
        let path = path_with_id(ANIME_ID_PREFIX, self.anime_id.unwrap(), "");
        get_with_query(path.as_str(), &self.params(), false)
    }
}

/// Reads a ranking of anime.
#[derive(Debug, Clone)]
pub struct AnimeRankingGet {
    ranking_type: Option<AnimeRankingType>,
    limit: Option<u16>,
    offset: Option<u64>,
    fields: Option<String>,
}

/// The mathematical value of [`AnimeRankingGet`].
pub struct AnimeRankingGetView {
    pub ranking_type: Option<AnimeRankingType>,
    pub limit: Option<u64>,
    pub offset: Option<u64>,
    pub fields: Option<Seq<char>>,
}

impl View for AnimeRankingGet {
    type V = AnimeRankingGetView;

    closed spec fn view(&self) -> AnimeRankingGetView {
        AnimeRankingGetView {
            ranking_type: self.ranking_type,
            limit: match self.limit {
                Some(n) => Some(n as u64),
                None => None,
            },
            offset: self.offset,
            fields: opt_text(self.fields),
        }
    }
}

impl AnimeRankingGetView {
    /// No parameter is set.
    pub open spec fn unset() -> AnimeRankingGetView {
        AnimeRankingGetView {
            ranking_type: None,
            limit: None,
            offset: None,
            fields: None,
        }
    }

    /// The parameters of the query string, in their order: those that are set.
    pub open spec fn pairs(self) -> Seq<(Seq<char>, Seq<char>)> {
        opt_pair("ranking_type"@, match self.ranking_type {
                Some(v) => Some(v.name()),
                None => None,
            })
            + opt_pair("limit"@, opt_decimal(self.limit))
            + opt_pair("offset"@, opt_decimal(self.offset))
            + opt_pair("fields"@, self.fields)
    }

    /// The path of the call.
    pub open spec fn path(self) -> Seq<char> {
        ANIME_RANKING@
    }
}

impl AnimeRankingGet {
    /// Which ranking. It has to be set.
    pub fn ranking_type(self, ranking_type: AnimeRankingType) -> (r: Self)
        ensures
            r@ == (AnimeRankingGetView { ranking_type: Some(ranking_type), ..self@ }),
    {
        AnimeRankingGet { ranking_type: Some(ranking_type), ..self }
    }

    /// How many items at most; the API takes 100 where none is given. A number above 500 is
    /// held at 500.
    pub fn limit(self, limit: u16) -> (r: Self)
        ensures
            r@ == (AnimeRankingGetView { limit: Some(capped(limit as u64, 500)), ..self@ }),
    {
        AnimeRankingGet { limit: Some(cap_u16(limit, 500)), ..self }
    }

    /// How many items to skip; the API skips none where nothing is given.
    pub fn offset(self, offset: u64) -> (r: Self)
        ensures
            r@ == (AnimeRankingGetView { offset: Some(offset), ..self@ }),
    {
        AnimeRankingGet { offset: Some(offset), ..self }
    }

    /// Which fields of each item the answer holds: their names, joined with commas.
    pub fn fields(self, fields: Vec<String>) -> (r: Self)
        ensures
            r@ == (AnimeRankingGetView {
                fields: Some(joined(fields.deep_view(), seq![','])),
                ..self@
            }),
    {
        AnimeRankingGet { fields: Some(join_with_commas(&fields)), ..self }
    }

    /// The parameters of the query string, in their order: those that are set.
    pub fn params(&self) -> (params: Vec<Param>)
        ensures
            params.deep_view() == self@.pairs(),
    {
        let mut params: Vec<Param> = Vec::new();
        assert(params.deep_view() =~= Seq::empty());
        push_name(
            &mut params,
            "ranking_type",
            match self.ranking_type {
                Some(v) => Some(v.as_str()),
                None => None,
            },
        );
        push_number(
            &mut params,
            "limit",
            match self.limit {
                Some(n) => Some(n as u64),
                None => None,
            },
        );
        push_number(&mut params, "offset", self.offset);
        push_text(&mut params, "fields", &self.fields);
        assert(params.deep_view() =~= self@.pairs());
        params
    }

    /// Whether `ranking_type` is set, so that the call can be described.
    pub fn is_ready(&self) -> (ready: bool)
        ensures
            ready == (self@.ranking_type is Some),
    {
        self.ranking_type.is_some()
    }

    /// Describes the call. The ranking has to be set. The call reads it with the client id.
    pub fn request(&self) -> (r: Result<ApiRequest, ApiError>)
        requires
            self@.ranking_type is Some,
        ensures
            describes_get(r, self@.path(), self@.pairs(), false),
    {
        let path = ANIME_RANKING;
        get_with_query(path, &self.params(), false)
    }
}

/// Reads the anime of a season.
#[derive(Debug, Clone)]
pub struct AnimeSeasonalGet {
    year: Option<u16>,
    season: Option<SeasonType>,
    sort: Option<AnimeSeasonSort>,
    limit: Option<u16>,
    offset: Option<u64>,
    fields: Option<String>,
}

/// The mathematical value of [`AnimeSeasonalGet`].
pub struct AnimeSeasonalGetView {
    pub year: Option<u64>,
    pub season: Option<SeasonType>,
    pub sort: Option<AnimeSeasonSort>,
    pub limit: Option<u64>,
    pub offset: Option<u64>,
    pub fields: Option<Seq<char>>,
}

impl View for AnimeSeasonalGet {
    type V = AnimeSeasonalGetView;

    closed spec fn view(&self) -> AnimeSeasonalGetView {
        AnimeSeasonalGetView {
            year: match self.year {
                Some(n) => Some(n as u64),
                None => None,
            },
            season: self.season,
            sort: self.sort,
            limit: match self.limit {
                Some(n) => Some(n as u64),
                None => None,
            },
            offset: self.offset,
            fields: opt_text(self.fields),
        }
    }
}

impl AnimeSeasonalGetView {
    /// No parameter is set.
    pub open spec fn unset() -> AnimeSeasonalGetView {
        AnimeSeasonalGetView {
            year: None,
            season: None,
            sort: None,
            limit: None,
            offset: None,
            fields: None,
        }
    }

    /// The parameters of the query string, in their order: those that are set.
    pub open spec fn pairs(self) -> Seq<(Seq<char>, Seq<char>)> {
        opt_pair("sort"@, match self.sort {
                Some(v) => Some(v.name()),
                None => None,
            })
            + opt_pair("limit"@, opt_decimal(self.limit))
            + opt_pair("offset"@, opt_decimal(self.offset))
            + opt_pair("fields"@, self.fields)
    }

    /// The path of the call.
    pub open spec fn path(self) -> Seq<char> {
        id_path(ANIME_SEASON_PREFIX@, self.year->0, "/"@) + self.season->0.name()
    }
}

impl AnimeSeasonalGet {
    /// The year. It has to be set.
    pub fn year(self, year: u16) -> (r: Self)
        ensures
            r@ == (AnimeSeasonalGetView { year: Some(year as u64), ..self@ }),
    {
        AnimeSeasonalGet { year: Some(year), ..self }
    }

    /// The season. It has to be set.
    pub fn season(self, season: SeasonType) -> (r: Self)
        ensures
            r@ == (AnimeSeasonalGetView { season: Some(season), ..self@ }),
    {
        AnimeSeasonalGet { season: Some(season), ..self }
    }

    /// How to order the items.
    pub fn sort(self, sort: AnimeSeasonSort) -> (r: Self)
        ensures
            r@ == (AnimeSeasonalGetView { sort: Some(sort), ..self@ }),
    {
        AnimeSeasonalGet { sort: Some(sort), ..self }
    }

    /// How many items at most; the API takes 100 where none is given. A number above 500 is
    /// held at 500.
    pub fn limit(self, limit: u16) -> (r: Self)
        ensures
            r@ == (AnimeSeasonalGetView { limit: Some(capped(limit as u64, 500)), ..self@ }),
    {
        AnimeSeasonalGet { limit: Some(cap_u16(limit, 500)), ..self }
    }

    /// How many items to skip; the API skips none where nothing is given.
    pub fn offset(self, offset: u64) -> (r: Self)
        ensures
            r@ == (AnimeSeasonalGetView { offset: Some(offset), ..self@ }),
    {
        AnimeSeasonalGet { offset: Some(offset), ..self }
    }

    /// Which fields of each item the answer holds: their names, joined with commas.
    pub fn fields(self, fields: Vec<String>) -> (r: Self)
        ensures
            r@ == (AnimeSeasonalGetView {
                fields: Some(joined(fields.deep_view(), seq![','])),
                ..self@
            }),
    {
        AnimeSeasonalGet { fields: Some(join_with_commas(&fields)), ..self }
    }

    /// The parameters of the query string, in their order: those that are set.
    pub fn params(&self) -> (params: Vec<Param>)
        ensures
            params.deep_view() == self@.pairs(),
    {
        let mut params: Vec<Param> = Vec::new();
        assert(params.deep_view() =~= Seq::empty());
        push_name(
            &mut params,
            "sort",
            match self.sort {
                Some(v) => Some(v.as_str()),
                None => None,
            },
        );
        push_number(
            &mut params,
            "limit",
            match self.limit {
                Some(n) => Some(n as u64),
                None => None,
            },
        );
        push_number(&mut params, "offset", self.offset);
        push_text(&mut params, "fields", &self.fields);
        assert(params.deep_view() =~= self@.pairs());
        params
    }

    /// Whether `year` and `season` are set, so that the call can be described.
    pub fn is_ready(&self) -> (ready: bool)
        ensures
            ready == (self@.year is Some && self@.season is Some),
    {
        self.year.is_some() && self.season.is_some()
    }

    /// Describes the call. Year and season have to be set. The call reads the season with the
    /// client id.
    pub fn request(&self) -> (r: Result<ApiRequest, ApiError>)
        requires
            self@.year is Some,
            self@.season is Some,
        ensures
            describes_get(r, self@.path(), self@.pairs(), false),
    {
        let path = concat_text(
            path_with_id(ANIME_SEASON_PREFIX, self.year.unwrap() as u64, "/").as_str(),
            self.season.unwrap().as_str(),
        );
        get_with_query(path.as_str(), &self.params(), false)
    }
}

/// Reads the anime suggested to the user.
#[derive(Debug, Clone)]
pub struct AnimeSuggestedGet {
    limit: Option<u16>,
    offset: Option<u64>,
    fields: Option<String>,
}

/// The mathematical value of [`AnimeSuggestedGet`].
pub struct AnimeSuggestedGetView {
    pub limit: Option<u64>,
    pub offset: Option<u64>,
    pub fields: Option<Seq<char>>,
}

impl View for AnimeSuggestedGet {
    type V = AnimeSuggestedGetView;

    closed spec fn view(&self) -> AnimeSuggestedGetView {
        AnimeSuggestedGetView {
            limit: match self.limit {
                Some(n) => Some(n as u64),
                None => None,
            },
            offset: self.offset,
            fields: opt_text(self.fields),
        }
    }
}

impl AnimeSuggestedGetView {
    /// No parameter is set.
    pub open spec fn unset() -> AnimeSuggestedGetView {
        AnimeSuggestedGetView {
            limit: None,
            offset: None,
            fields: None,
        }
    }

    /// The parameters of the query string, in their order: those that are set.
    pub open spec fn pairs(self) -> Seq<(Seq<char>, Seq<char>)> {
        opt_pair("limit"@, opt_decimal(self.limit))
            + opt_pair("offset"@, opt_decimal(self.offset))
            + opt_pair("fields"@, self.fields)
    }

    /// The path of the call.
    pub open spec fn path(self) -> Seq<char> {
        ANIME_SUGGESTIONS@
    }
}

impl AnimeSuggestedGet {
    /// How many items at most; the API takes 100 where none is given. A number above 100 is
    /// held at 100.
    pub fn limit(self, limit: u16) -> (r: Self)
        ensures
            r@ == (AnimeSuggestedGetView { limit: Some(capped(limit as u64, 100)), ..self@ }),
    {
        AnimeSuggestedGet { limit: Some(cap_u16(limit, 100)), ..self }
    }

    /// How many items to skip; the API skips none where nothing is given.
    pub fn offset(self, offset: u64) -> (r: Self)
        ensures
            r@ == (AnimeSuggestedGetView { offset: Some(offset), ..self@ }),
    {
        AnimeSuggestedGet { offset: Some(offset), ..self }
    }

    /// Which fields of each item the answer holds: their names, joined with commas.
    pub fn fields(self, fields: Vec<String>) -> (r: Self)
        ensures
            r@ == (AnimeSuggestedGetView {
                fields: Some(joined(fields.deep_view(), seq![','])),
                ..self@
            }),
    {
        AnimeSuggestedGet { fields: Some(join_with_commas(&fields)), ..self }
    }

    /// The parameters of the query string, in their order: those that are set.
    pub fn params(&self) -> (params: Vec<Param>)
        ensures
            params.deep_view() == self@.pairs(),
    {
        let mut params: Vec<Param> = Vec::new();
        assert(params.deep_view() =~= Seq::empty());
        push_number(
            &mut params,
            "limit",
            match self.limit {
                Some(n) => Some(n as u64),
                None => None,
            },
        );
        push_number(&mut params, "offset", self.offset);
        push_text(&mut params, "fields", &self.fields);
        assert(params.deep_view() =~= self@.pairs());
        params
    }

    /// Describes the call. The call is made on behalf of the user.
    pub fn request(&self) -> (r: Result<ApiRequest, ApiError>)
        ensures
            describes_get(r, self@.path(), self@.pairs(), true),
    {
        let path = ANIME_SUGGESTIONS;
        get_with_query(path, &self.params(), true)
    }
}

} // verus!
