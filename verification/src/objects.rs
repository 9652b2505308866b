//! The values of the catalog's data model that this library reads or builds:
//! the enumerations with their names on the wire, the plain records, and
//! dates that may lack a month or a day.

use crate::text::text_eq;
use vstd::prelude::*;

verus! {

/// Whose list or profile is asked for.
#[derive(Clone, Debug, PartialEq)]
pub enum Username {
    /// The user the access token belongs to.
    Me,
    /// The user of that name.
    User(String),
}

impl Username {
    /// The name as it stands in a URL: `@me`, or the user's name.
    pub open spec fn name(self) -> Seq<char> {
        match self {
            Username::Me => "@me"@,
            Username::User(name) => name@,
        }
    }

    /// The name as it stands in a URL.
    pub fn to_string(&self) -> (text: String)
        ensures
            text@ == self.name(),
    {
        match self {
            Username::Me => "@me".to_owned(),
            Username::User(name) => name.clone(),
        }
    }

    /// Whether this is the user the access token belongs to.
    pub fn is_me(&self) -> (me: bool)
        ensures
            me == (*self is Me),
    {
        match self {
            Username::Me => true,
            Username::User(_) => false,
        }
    }
}

/// How a user's manga list is ordered.
#[derive(Copy, Clone, Debug, PartialEq, Eq, Structural)]
pub enum MangaSort {
    ListScore,
    ListUpdatedAt,
    MangaTitle,
    MangaStartDate,
    MangaId,
}

impl MangaSort {
    /// The name of this value on the wire.
    pub open spec fn name(self) -> Seq<char> {
        match self {
            MangaSort::ListScore => "list_score"@,
            MangaSort::ListUpdatedAt => "list_updated_at"@,
            MangaSort::MangaTitle => "manga_title"@,
            MangaSort::MangaStartDate => "manga_start_date"@,
            MangaSort::MangaId => "manga_id"@,
        }
    }

    /// The name of this value on the wire.
    pub fn as_str(self) -> (text: &'static str)
        ensures
            text@ == self.name(),
    {
        match self {
            MangaSort::ListScore => "list_score",
            MangaSort::ListUpdatedAt => "list_updated_at",
            MangaSort::MangaTitle => "manga_title",
            MangaSort::MangaStartDate => "manga_start_date",
            MangaSort::MangaId => "manga_id",
        }
    }

    /// The value whose name on the wire is `text`, if there is one.
    pub fn from_str(text: &str) -> (value: Option<MangaSort>)
        ensures
            match value {
                Some(v) => v.name() == text@,
                None => forall|v: MangaSort| #[trigger] v.name() != text@,
            },
            forall|v: MangaSort| #[trigger] v.name() == text@ ==> value == Some(v),
    {
        let value = if text_eq(text, "list_score") {
            Some(MangaSort::ListScore)
        } else if text_eq(text, "list_updated_at") {
            Some(MangaSort::ListUpdatedAt)
        } else if text_eq(text, "manga_title") {
            Some(MangaSort::MangaTitle)
        } else if text_eq(text, "manga_start_date") {
            Some(MangaSort::MangaStartDate)
        } else if text_eq(text, "manga_id") {
            Some(MangaSort::MangaId)
        } else {
            None
        };
        assert forall|v: MangaSort| #[trigger] v.name() == text@ implies value == Some(v) by {
            if value is Some {
                MangaSort::lemma_name_is_unique(v, value->0);
            }
        }
        value
    }

    /// No two values have the same name on the wire.
    pub proof fn lemma_name_is_unique(a: MangaSort, b: MangaSort)
        requires
            a.name() == b.name(),
        ensures
            a == b,
    {
        reveal_strlit("list_score");
        assert("list_score"@.len() == 10);
        reveal_strlit("list_updated_at");
        assert("list_updated_at"@.len() == 15);
        reveal_strlit("manga_title");
        assert("manga_title"@.len() == 11);
        reveal_strlit("manga_start_date");
        assert("manga_start_date"@.len() == 16);
        reveal_strlit("manga_id");
        assert("manga_id"@.len() == 8);
    }
}

/// How a user's anime list is ordered.
#[derive(Copy, Clone, Debug, PartialEq, Eq, Structural)]
pub enum AnimeSort {
    ListScore,
    ListUpdatedAt,
    AnimeTitle,
    AnimeStartDate,
    AnimeId,
}

impl AnimeSort {
    /// The name of this value on the wire.
    pub open spec fn name(self) -> Seq<char> {
        match self {
            AnimeSort::ListScore => "list_score"@,
            AnimeSort::ListUpdatedAt => "list_updated_at"@,
            AnimeSort::AnimeTitle => "anime_title"@,
            AnimeSort::AnimeStartDate => "anime_start_date"@,
            AnimeSort::AnimeId => "anime_id"@,
        }
    }

    /// The name of this value on the wire.
    pub fn as_str(self) -> (text: &'static str)
        ensures
            text@ == self.name(),
    {
        match self {
            AnimeSort::ListScore => "list_score",
            AnimeSort::ListUpdatedAt => "list_updated_at",
            AnimeSort::AnimeTitle => "anime_title",
            AnimeSort::AnimeStartDate => "anime_start_date",
            AnimeSort::AnimeId => "anime_id",
        }
    }

    /// The value whose name on the wire is `text`, if there is one.
    pub fn from_str(text: &str) -> (value: Option<AnimeSort>)
        ensures
            match value {
                Some(v) => v.name() == text@,
                None => forall|v: AnimeSort| #[trigger] v.name() != text@,
            },
            forall|v: AnimeSort| #[trigger] v.name() == text@ ==> value == Some(v),
    {
        let value = if text_eq(text, "list_score") {
            Some(AnimeSort::ListScore)
        } else if text_eq(text, "list_updated_at") {
            Some(AnimeSort::ListUpdatedAt)
        } else if text_eq(text, "anime_title") {
            Some(AnimeSort::AnimeTitle)
        } else if text_eq(text, "anime_start_date") {
            Some(AnimeSort::AnimeStartDate)
        } else if text_eq(text, "anime_id") {
            Some(AnimeSort::AnimeId)
        } else {
            None
        };
        assert forall|v: AnimeSort| #[trigger] v.name() == text@ implies value == Some(v) by {
            if value is Some {
                AnimeSort::lemma_name_is_unique(v, value->0);
            }
        }
        value
    }

    /// No two values have the same name on the wire.
    pub proof fn lemma_name_is_unique(a: AnimeSort, b: AnimeSort)
        requires
            a.name() == b.name(),
        ensures
            a == b,
    {
        reveal_strlit("list_score");
        assert("list_score"@.len() == 10);
        reveal_strlit("list_updated_at");
        assert("list_updated_at"@.len() == 15);
        reveal_strlit("anime_title");
        assert("anime_title"@.len() == 11);
        reveal_strlit("anime_start_date");
        assert("anime_start_date"@.len() == 16);
        reveal_strlit("anime_id");
        assert("anime_id"@.len() == 8);
    }
}

/// Where a user stands with an anime.
#[derive(Copy, Clone, Debug, PartialEq, Eq, Structural)]
pub enum WatchStatus {
    Watching,
    Completed,
    OnHold,
    Dropped,
    PlanToWatch,
}

impl WatchStatus {
    /// The name of this value on the wire.
    pub open spec fn name(self) -> Seq<char> {
        match self {
            WatchStatus::Watching => "watching"@,
            WatchStatus::Completed => "completed"@,
            WatchStatus::OnHold => "on_hold"@,
            WatchStatus::Dropped => "dropped"@,
            WatchStatus::PlanToWatch => "plan_to_watch"@,
        }
    }

    /// The name of this value on the wire.
    pub fn as_str(self) -> (text: &'static str)
        ensures
            text@ == self.name(),
    {
        match self {
            WatchStatus::Watching => "watching",
            WatchStatus::Completed => "completed",
            WatchStatus::OnHold => "on_hold",
            WatchStatus::Dropped => "dropped",
            WatchStatus::PlanToWatch => "plan_to_watch",
        }
    }

    /// The value whose name on the wire is `text`, if there is one.
    pub fn from_str(text: &str) -> (value: Option<WatchStatus>)
        ensures
            match value {
                Some(v) => v.name() == text@,
                None => forall|v: WatchStatus| #[trigger] v.name() != text@,
            },
            forall|v: WatchStatus| #[trigger] v.name() == text@ ==> value == Some(v),
    {
        let value = if text_eq(text, "watching") {
            Some(WatchStatus::Watching)
        } else if text_eq(text, "completed") {
            Some(WatchStatus::Completed)
        } else if text_eq(text, "on_hold") {
            Some(WatchStatus::OnHold)
        } else if text_eq(text, "dropped") {
            Some(WatchStatus::Dropped)
        } else if text_eq(text, "plan_to_watch") {
            Some(WatchStatus::PlanToWatch)
        } else {
            None
        };
        assert forall|v: WatchStatus| #[trigger] v.name() == text@ implies value == Some(v) by {
            if value is Some {
                WatchStatus::lemma_name_is_unique(v, value->0);
            }
        }
        value
    }

    /// No two values have the same name on the wire.
    pub proof fn lemma_name_is_unique(a: WatchStatus, b: WatchStatus)
        requires
            a.name() == b.name(),
        ensures
            a == b,
    {
        reveal_strlit("watching");
        assert("watching"@.len() == 8);
        reveal_strlit("completed");
        assert("completed"@.len() == 9);
        reveal_strlit("on_hold");
        assert("on_hold"@.len() == 7 && "on_hold"@[0] == 'o');
        reveal_strlit("dropped");
        assert("dropped"@.len() == 7 && "dropped"@[0] == 'd');
        reveal_strlit("plan_to_watch");
        assert("plan_to_watch"@.len() == 13);
    }
}

/// Where a user stands with a manga.
#[derive(Copy, Clone, Debug, PartialEq, Eq, Structural)]
pub enum ReadStatus {
    Reading,
    Completed,
    OnHold,
    Dropped,
    PlanToRead,
}

impl ReadStatus {
    /// The name of this value on the wire.
    pub open spec fn name(self) -> Seq<char> {
        match self {
            ReadStatus::Reading => "reading"@,
            ReadStatus::Completed => "completed"@,
            ReadStatus::OnHold => "on_hold"@,
            ReadStatus::Dropped => "dropped"@,
            ReadStatus::PlanToRead => "plan_to_read"@,
        }
    }

    /// The name of this value on the wire.
    pub fn as_str(self) -> (text: &'static str)
        ensures
            text@ == self.name(),
    {
        match self {
            ReadStatus::Reading => "reading",
            ReadStatus::Completed => "completed",
            ReadStatus::OnHold => "on_hold",
            ReadStatus::Dropped => "dropped",
            ReadStatus::PlanToRead => "plan_to_read",
        }
    }

    /// The value whose name on the wire is `text`, if there is one.
    pub fn from_str(text: &str) -> (value: Option<ReadStatus>)
        ensures
            match value {
                Some(v) => v.name() == text@,
                None => forall|v: ReadStatus| #[trigger] v.name() != text@,
            },
            forall|v: ReadStatus| #[trigger] v.name() == text@ ==> value == Some(v),
    {
        let value = if text_eq(text, "reading") {
            Some(ReadStatus::Reading)
        } else if text_eq(text, "completed") {
            Some(ReadStatus::Completed)
        } else if text_eq(text, "on_hold") {
            Some(ReadStatus::OnHold)
        } else if text_eq(text, "dropped") {
            Some(ReadStatus::Dropped)
        } else if text_eq(text, "plan_to_read") {
            Some(ReadStatus::PlanToRead)
        } else {
            None
        };
        assert forall|v: ReadStatus| #[trigger] v.name() == text@ implies value == Some(v) by {
            if value is Some {
                ReadStatus::lemma_name_is_unique(v, value->0);
            }
        }
        value
    }

    /// No two values have the same name on the wire.
    pub proof fn lemma_name_is_unique(a: ReadStatus, b: ReadStatus)
        requires
            a.name() == b.name(),
        ensures
            a == b,
    {
        reveal_strlit("reading");
        assert("reading"@.len() == 7 && "reading"@[0] == 'r');
        reveal_strlit("completed");
        assert("completed"@.len() == 9);
        reveal_strlit("on_hold");
        assert("on_hold"@.len() == 7 && "on_hold"@[0] == 'o');
        reveal_strlit("dropped");
        assert("dropped"@.len() == 7 && "dropped"@[0] == 'd');
        reveal_strlit("plan_to_read");
        assert("plan_to_read"@.len() == 12);
    }
}

/// How two titles are related.
#[derive(Copy, Clone, Debug, PartialEq, Eq, Structural)]
pub enum RelationType {
    Prequel,
    Sequel,
    Other,
}

impl RelationType {
    /// The name of this value on the wire.
    pub open spec fn name(self) -> Seq<char> {
        match self {
            RelationType::Prequel => "prequel"@,
            RelationType::Sequel => "sequel"@,
            RelationType::Other => "other"@,
        }
    }

    /// The name of this value on the wire.
    pub fn as_str(self) -> (text: &'static str)
        ensures
            text@ == self.name(),
    {
        match self {
            RelationType::Prequel => "prequel",
            RelationType::Sequel => "sequel",
            RelationType::Other => "other",
        }
    }

    /// The value whose name on the wire is `text`, if there is one.
    pub fn from_str(text: &str) -> (value: Option<RelationType>)
        ensures
            match value {
                Some(v) => v.name() == text@,
                None => forall|v: RelationType| #[trigger] v.name() != text@,
            },
            forall|v: RelationType| #[trigger] v.name() == text@ ==> value == Some(v),
    {
        let value = if text_eq(text, "prequel") {
            Some(RelationType::Prequel)
        } else if text_eq(text, "sequel") {
            Some(RelationType::Sequel)
        } else if text_eq(text, "other") {
            Some(RelationType::Other)
        } else {
            None
        };
        assert forall|v: RelationType| #[trigger] v.name() == text@ implies value == Some(v) by {
            if value is Some {
                RelationType::lemma_name_is_unique(v, value->0);
            }
        }
        value
    }

    /// No two values have the same name on the wire.
    pub proof fn lemma_name_is_unique(a: RelationType, b: RelationType)
        requires
            a.name() == b.name(),
        ensures
            a == b,
    {
        reveal_strlit("prequel");
        assert("prequel"@.len() == 7);
        reveal_strlit("sequel");
        assert("sequel"@.len() == 6);
        reveal_strlit("other");
        assert("other"@.len() == 5);
    }
}

/// What an anime was adapted from.
#[derive(Copy, Clone, Debug, PartialEq, Eq, Structural)]
pub enum Source {
    Other,
    Original,
    Manga,
    FourKomaManga,
    WebManga,
    DigitalManga,
    Novel,
    LightNovel,
    VisualNovel,
    Game,
    CardGame,
    Book,
    PictureBook,
    Radio,
    Music,
}

impl Source {
    /// The name of this value on the wire.
    pub open spec fn name(self) -> Seq<char> {
        match self {
            Source::Other => "other"@,
            Source::Original => "original"@,
            Source::Manga => "manga"@,
            Source::FourKomaManga => "4_koma_manga"@,
            Source::WebManga => "web_manga"@,
            Source::DigitalManga => "digital_manga"@,
            Source::Novel => "novel"@,
            Source::LightNovel => "light_novel"@,
            Source::VisualNovel => "visual_novel"@,
            Source::Game => "game"@,
            Source::CardGame => "card_game"@,
            Source::Book => "book"@,
            Source::PictureBook => "picture_book"@,
            Source::Radio => "radio"@,
            Source::Music => "music"@,
        }
    }

    /// The name of this value on the wire.
    pub fn as_str(self) -> (text: &'static str)
        ensures
            text@ == self.name(),
    {
        match self {
            Source::Other => "other",
            Source::Original => "original",
            Source::Manga => "manga",
            Source::FourKomaManga => "4_koma_manga",
            Source::WebManga => "web_manga",
            Source::DigitalManga => "digital_manga",
            Source::Novel => "novel",
            Source::LightNovel => "light_novel",
            Source::VisualNovel => "visual_novel",
            Source::Game => "game",
            Source::CardGame => "card_game",
            Source::Book => "book",
            Source::PictureBook => "picture_book",
            Source::Radio => "radio",
            Source::Music => "music",
        }
    }

    /// The value whose name on the wire is `text`, if there is one.
    pub fn from_str(text: &str) -> (value: Option<Source>)
        ensures
            match value {
                Some(v) => v.name() == text@,
                None => forall|v: Source| #[trigger] v.name() != text@,
            },
            forall|v: Source| #[trigger] v.name() == text@ ==> value == Some(v),
    {
        let value = if text_eq(text, "other") {
            Some(Source::Other)
        } else if text_eq(text, "original") {
            Some(Source::Original)
        } else if text_eq(text, "manga") {
            Some(Source::Manga)
        } else if text_eq(text, "4_koma_manga") {
            Some(Source::FourKomaManga)
        } else if text_eq(text, "web_manga") {
            Some(Source::WebManga)
        } else if text_eq(text, "digital_manga") {
            Some(Source::DigitalManga)
        } else if text_eq(text, "novel") {
            Some(Source::Novel)
        } else if text_eq(text, "light_novel") {
            Some(Source::LightNovel)
        } else if text_eq(text, "visual_novel") {
            Some(Source::VisualNovel)
        } else if text_eq(text, "game") {
            Some(Source::Game)
        } else if text_eq(text, "card_game") {
            Some(Source::CardGame)
        } else if text_eq(text, "book") {
            Some(Source::Book)
        } else if text_eq(text, "picture_book") {
            Some(Source::PictureBook)
        } else if text_eq(text, "radio") {
            Some(Source::Radio)
        } else if text_eq(text, "music") {
            Some(Source::Music)
        } else {
            None
        };
        assert forall|v: Source| #[trigger] v.name() == text@ implies value == Some(v) by {
            if value is Some {
                Source::lemma_name_is_unique(v, value->0);
            }
        }
        value
    }

    /// No two values have the same name on the wire.
    pub proof fn lemma_name_is_unique(a: Source, b: Source)
        requires
            a.name() == b.name(),
        ensures
            a == b,
    {
        reveal_strlit("other");
        assert("other"@.len() == 5 && "other"@[0] == 'o');
        reveal_strlit("original");
        assert("original"@.len() == 8);
        reveal_strlit("manga");
        assert("manga"@.len() == 5 && "manga"@[0] == 'm' && "manga"@[1] == 'a');
        reveal_strlit("4_koma_manga");
        assert("4_koma_manga"@.len() == 12 && "4_koma_manga"@[0] == '4');
        reveal_strlit("web_manga");
        assert("web_manga"@.len() == 9 && "web_manga"@[0] == 'w');
        reveal_strlit("digital_manga");
        assert("digital_manga"@.len() == 13);
        reveal_strlit("novel");
        assert("novel"@.len() == 5 && "novel"@[0] == 'n');
        reveal_strlit("light_novel");
        assert("light_novel"@.len() == 11);
        reveal_strlit("visual_novel");
        assert("visual_novel"@.len() == 12 && "visual_novel"@[0] == 'v');
        reveal_strlit("game");
        assert("game"@.len() == 4 && "game"@[0] == 'g');
        reveal_strlit("card_game");
        assert("card_game"@.len() == 9 && "card_game"@[0] == 'c');
        reveal_strlit("book");
        assert("book"@.len() == 4 && "book"@[0] == 'b');
        reveal_strlit("picture_book");
        assert("picture_book"@.len() == 12 && "picture_book"@[0] == 'p');
        reveal_strlit("radio");
        assert("radio"@.len() == 5 && "radio"@[0] == 'r');
        reveal_strlit("music");
        assert("music"@.len() == 5 && "music"@[0] == 'm' && "music"@[1] == 'u');
    }
}

/// The age rating of an anime.
#[derive(Copy, Clone, Debug, PartialEq, Eq, Structural)]
pub enum Rating {
    G,
    PG,
    PG13,
    R,
    RPlus,
    RX,
}

impl Rating {
    /// The name of this value on the wire.
    pub open spec fn name(self) -> Seq<char> {
        match self {
            Rating::G => "g"@,
            Rating::PG => "pg"@,
            Rating::PG13 => "pg_13"@,
            Rating::R => "r"@,
            Rating::RPlus => "r+"@,
            Rating::RX => "rx"@,
        }
    }

    /// The name of this value on the wire.
    pub fn as_str(self) -> (text: &'static str)
        ensures
            text@ == self.name(),
    {
        match self {
            Rating::G => "g",
            Rating::PG => "pg",
            Rating::PG13 => "pg_13",
            Rating::R => "r",
            Rating::RPlus => "r+",
            Rating::RX => "rx",
        }
    }

    /// The value whose name on the wire is `text`, if there is one.
    pub fn from_str(text: &str) -> (value: Option<Rating>)
        ensures
            match value {
                Some(v) => v.name() == text@,
                None => forall|v: Rating| #[trigger] v.name() != text@,
            },
            forall|v: Rating| #[trigger] v.name() == text@ ==> value == Some(v),
    {
        let value = if text_eq(text, "g") {
            Some(Rating::G)
        } else if text_eq(text, "pg") {
            Some(Rating::PG)
        } else if text_eq(text, "pg_13") {
            Some(Rating::PG13)
        } else if text_eq(text, "r") {
            Some(Rating::R)
        } else if text_eq(text, "r+") {
            Some(Rating::RPlus)
        } else if text_eq(text, "rx") {
            Some(Rating::RX)
        } else {
            None
        };
        assert forall|v: Rating| #[trigger] v.name() == text@ implies value == Some(v) by {
            if value is Some {
                Rating::lemma_name_is_unique(v, value->0);
            }
        }
        value
    }

    /// No two values have the same name on the wire.
    pub proof fn lemma_name_is_unique(a: Rating, b: Rating)
        requires
            a.name() == b.name(),
        ensures
            a == b,
    {
        reveal_strlit("g");
        assert("g"@.len() == 1 && "g"@[0] == 'g');
        reveal_strlit("pg");
        assert("pg"@.len() == 2 && "pg"@[0] == 'p');
        reveal_strlit("pg_13");
        assert("pg_13"@.len() == 5);
        reveal_strlit("r");
        assert("r"@.len() == 1 && "r"@[0] == 'r');
        reveal_strlit("r+");
        assert("r+"@.len() == 2 && "r+"@[0] == 'r' && "r+"@[1] == '+');
        reveal_strlit("rx");
        assert("rx"@.len() == 2 && "rx"@[0] == 'r' && "rx"@[1] == 'x');
    }
}

/// The medium of an anime.
#[derive(Copy, Clone, Debug, PartialEq, Eq, Structural)]
pub enum MediaTypeAnime {
    Unknown,
    TV,
    Ova,
    Movie,
    Special,
    Ona,
    Music,
}

impl MediaTypeAnime {
    /// The name of this value on the wire.
    pub open spec fn name(self) -> Seq<char> {
        match self {
            MediaTypeAnime::Unknown => "unknown"@,
            MediaTypeAnime::TV => "tv"@,
            MediaTypeAnime::Ova => "ova"@,
            MediaTypeAnime::Movie => "movie"@,
            MediaTypeAnime::Special => "special"@,
            MediaTypeAnime::Ona => "ona"@,
            MediaTypeAnime::Music => "music"@,
        }
    }

    /// The name of this value on the wire.
    pub fn as_str(self) -> (text: &'static str)
        ensures
            text@ == self.name(),
    {
        match self {
            MediaTypeAnime::Unknown => "unknown",
            MediaTypeAnime::TV => "tv",
            MediaTypeAnime::Ova => "ova",
            MediaTypeAnime::Movie => "movie",
            MediaTypeAnime::Special => "special",
            MediaTypeAnime::Ona => "ona",
            MediaTypeAnime::Music => "music",
        }
    }

    /// The value whose name on the wire is `text`, if there is one.
    pub fn from_str(text: &str) -> (value: Option<MediaTypeAnime>)
        ensures
            match value {
                Some(v) => v.name() == text@,
                None => forall|v: MediaTypeAnime| #[trigger] v.name() != text@,
            },
            forall|v: MediaTypeAnime| #[trigger] v.name() == text@ ==> value == Some(v),
    {
        let value = if text_eq(text, "unknown") {
            Some(MediaTypeAnime::Unknown)
        } else if text_eq(text, "tv") {
            Some(MediaTypeAnime::TV)
        } else if text_eq(text, "ova") {
            Some(MediaTypeAnime::Ova)
        } else if text_eq(text, "movie") {
            Some(MediaTypeAnime::Movie)
        } else if text_eq(text, "special") {
            Some(MediaTypeAnime::Special)
        } else if text_eq(text, "ona") {
            Some(MediaTypeAnime::Ona)
        } else if text_eq(text, "music") {
            Some(MediaTypeAnime::Music)
        } else {
            None
        };
        assert forall|v: MediaTypeAnime| #[trigger] v.name() == text@ implies value == Some(v) by {
            if value is Some {
                MediaTypeAnime::lemma_name_is_unique(v, value->0);
            }
        }
        value
    }

    /// No two values have the same name on the wire.
    pub proof fn lemma_name_is_unique(a: MediaTypeAnime, b: MediaTypeAnime)
        requires
            a.name() == b.name(),
        ensures
            a == b,
    {
        reveal_strlit("unknown");
        assert("unknown"@.len() == 7 && "unknown"@[0] == 'u');
        reveal_strlit("tv");
        assert("tv"@.len() == 2);
        reveal_strlit("ova");
        assert("ova"@.len() == 3 && "ova"@[1] == 'v');
        reveal_strlit("movie");
        assert("movie"@.len() == 5 && "movie"@[1] == 'o');
        reveal_strlit("special");
        assert("special"@.len() == 7 && "special"@[0] == 's');
        reveal_strlit("ona");
        assert("ona"@.len() == 3 && "ona"@[1] == 'n');
        reveal_strlit("music");
        assert("music"@.len() == 5 && "music"@[1] == 'u');
    }
}

/// The medium of a manga.
#[derive(Copy, Clone, Debug, PartialEq, Eq, Structural)]
pub enum MediaTypeManga {
    Unknown,
    Manga,
    Novel,
    OneShot,
    Doujinshi,
    Manhwa,
    Manhua,
    Oel,
}

impl MediaTypeManga {
    /// The name of this value on the wire.
    pub open spec fn name(self) -> Seq<char> {
        match self {
            MediaTypeManga::Unknown => "unknown"@,
            MediaTypeManga::Manga => "manga"@,
            MediaTypeManga::Novel => "novel"@,
            MediaTypeManga::OneShot => "one_shot"@,
            MediaTypeManga::Doujinshi => "doujinshi"@,
            MediaTypeManga::Manhwa => "manhwa"@,
            MediaTypeManga::Manhua => "manhua"@,
            MediaTypeManga::Oel => "oel"@,
        }
    }

    /// The name of this value on the wire.
    pub fn as_str(self) -> (text: &'static str)
        ensures
            text@ == self.name(),
    {
        match self {
            MediaTypeManga::Unknown => "unknown",
            MediaTypeManga::Manga => "manga",
            MediaTypeManga::Novel => "novel",
            MediaTypeManga::OneShot => "one_shot",
            MediaTypeManga::Doujinshi => "doujinshi",
            MediaTypeManga::Manhwa => "manhwa",
            MediaTypeManga::Manhua => "manhua",
            MediaTypeManga::Oel => "oel",
        }
    }

    /// The value whose name on the wire is `text`, if there is one.
    pub fn from_str(text: &str) -> (value: Option<MediaTypeManga>)
        ensures
            match value {
                Some(v) => v.name() == text@,
                None => forall|v: MediaTypeManga| #[trigger] v.name() != text@,
            },
            forall|v: MediaTypeManga| #[trigger] v.name() == text@ ==> value == Some(v),
    {
        let value = if text_eq(text, "unknown") {
            Some(MediaTypeManga::Unknown)
        } else if text_eq(text, "manga") {
            Some(MediaTypeManga::Manga)
        } else if text_eq(text, "novel") {
            Some(MediaTypeManga::Novel)
        } else if text_eq(text, "one_shot") {
            Some(MediaTypeManga::OneShot)
        } else if text_eq(text, "doujinshi") {
            Some(MediaTypeManga::Doujinshi)
        } else if text_eq(text, "manhwa") {
            Some(MediaTypeManga::Manhwa)
        } else if text_eq(text, "manhua") {
            Some(MediaTypeManga::Manhua)
        } else if text_eq(text, "oel") {
            Some(MediaTypeManga::Oel)
        } else {
            None
        };
        assert forall|v: MediaTypeManga| #[trigger] v.name() == text@ implies value == Some(v) by {
            if value is Some {
                MediaTypeManga::lemma_name_is_unique(v, value->0);
            }
        }
        value
    }

    /// No two values have the same name on the wire.
    pub proof fn lemma_name_is_unique(a: MediaTypeManga, b: MediaTypeManga)
        requires
            a.name() == b.name(),
        ensures
            a == b,
    {
        reveal_strlit("unknown");
        assert("unknown"@.len() == 7);
        reveal_strlit("manga");
        assert("manga"@.len() == 5 && "manga"@[0] == 'm');
        reveal_strlit("novel");
        assert("novel"@.len() == 5 && "novel"@[0] == 'n');
        reveal_strlit("one_shot");
        assert("one_shot"@.len() == 8);
        reveal_strlit("doujinshi");
        assert("doujinshi"@.len() == 9);
        reveal_strlit("manhwa");
        assert("manhwa"@.len() == 6 && "manhwa"@[4] == 'w');
        reveal_strlit("manhua");
        assert("manhua"@.len() == 6 && "manhua"@[4] == 'u');
        reveal_strlit("oel");
        assert("oel"@.len() == 3);
    }
}

/// How safe for work a title is.
#[derive(Copy, Clone, Debug, PartialEq, Eq, Structural)]
pub enum Nsfw {
    White,
    Gray,
    Black,
}

impl Nsfw {
    /// The name of this value on the wire.
    pub open spec fn name(self) -> Seq<char> {
        match self {
            Nsfw::White => "white"@,
            Nsfw::Gray => "gray"@,
            Nsfw::Black => "black"@,
        }
    }

    /// The name of this value on the wire.
    pub fn as_str(self) -> (text: &'static str)
        ensures
            text@ == self.name(),
    {
        match self {
            Nsfw::White => "white",
            Nsfw::Gray => "gray",
            Nsfw::Black => "black",
        }
    }

    /// The value whose name on the wire is `text`, if there is one.
    pub fn from_str(text: &str) -> (value: Option<Nsfw>)
        ensures
            match value {
                Some(v) => v.name() == text@,
                None => forall|v: Nsfw| #[trigger] v.name() != text@,
            },
            forall|v: Nsfw| #[trigger] v.name() == text@ ==> value == Some(v),
    {
        let value = if text_eq(text, "white") {
            Some(Nsfw::White)
        } else if text_eq(text, "gray") {
            Some(Nsfw::Gray)
        } else if text_eq(text, "black") {
            Some(Nsfw::Black)
        } else {
            None
        };
        assert forall|v: Nsfw| #[trigger] v.name() == text@ implies value == Some(v) by {
            if value is Some {
                Nsfw::lemma_name_is_unique(v, value->0);
            }
        }
        value
    }

    /// No two values have the same name on the wire.
    pub proof fn lemma_name_is_unique(a: Nsfw, b: Nsfw)
        requires
            a.name() == b.name(),
        ensures
            a == b,
    {
        reveal_strlit("white");
        assert("white"@.len() == 5 && "white"@[0] == 'w');
        reveal_strlit("gray");
        assert("gray"@.len() == 4);
        reveal_strlit("black");
        assert("black"@.len() == 5 && "black"@[0] == 'b');
    }
}

/// A day of the week.
#[derive(Copy, Clone, Debug, PartialEq, Eq, Structural)]
pub enum DayOfWeek {
    Sunday,
    Monday,
    Tuesday,
    Wednesday,
    Thursday,
    Friday,
    Saturday,
}

impl DayOfWeek {
    /// The name of this value on the wire.
    pub open spec fn name(self) -> Seq<char> {
        match self {
            DayOfWeek::Sunday => "sunday"@,
            DayOfWeek::Monday => "monday"@,
            DayOfWeek::Tuesday => "tuesday"@,
            DayOfWeek::Wednesday => "wednesday"@,
            DayOfWeek::Thursday => "thursday"@,
            DayOfWeek::Friday => "friday"@,
            DayOfWeek::Saturday => "saturday"@,
        }
    }

    /// The name of this value on the wire.
    pub fn as_str(self) -> (text: &'static str)
        ensures
            text@ == self.name(),
    {
        match self {
            DayOfWeek::Sunday => "sunday",
            DayOfWeek::Monday => "monday",
            DayOfWeek::Tuesday => "tuesday",
            DayOfWeek::Wednesday => "wednesday",
            DayOfWeek::Thursday => "thursday",
            DayOfWeek::Friday => "friday",
            DayOfWeek::Saturday => "saturday",
        }
    }

    /// The value whose name on the wire is `text`, if there is one.
    pub fn from_str(text: &str) -> (value: Option<DayOfWeek>)
        ensures
            match value {
                Some(v) => v.name() == text@,
                None => forall|v: DayOfWeek| #[trigger] v.name() != text@,
            },
            forall|v: DayOfWeek| #[trigger] v.name() == text@ ==> value == Some(v),
    {
        let value = if text_eq(text, "sunday") {
            Some(DayOfWeek::Sunday)
        } else if text_eq(text, "monday") {
            Some(DayOfWeek::Monday)
        } else if text_eq(text, "tuesday") {
            Some(DayOfWeek::Tuesday)
        } else if text_eq(text, "wednesday") {
            Some(DayOfWeek::Wednesday)
        } else if text_eq(text, "thursday") {
            Some(DayOfWeek::Thursday)
        } else if text_eq(text, "friday") {
            Some(DayOfWeek::Friday)
        } else if text_eq(text, "saturday") {
            Some(DayOfWeek::Saturday)
        } else {
            None
        };
        assert forall|v: DayOfWeek| #[trigger] v.name() == text@ implies value == Some(v) by {
            if value is Some {
                DayOfWeek::lemma_name_is_unique(v, value->0);
            }
        }
        value
    }

    /// No two values have the same name on the wire.
    pub proof fn lemma_name_is_unique(a: DayOfWeek, b: DayOfWeek)
        requires
            a.name() == b.name(),
        ensures
            a == b,
    {
        reveal_strlit("sunday");
        assert("sunday"@.len() == 6 && "sunday"@[0] == 's');
        reveal_strlit("monday");
        assert("monday"@.len() == 6 && "monday"@[0] == 'm');
        reveal_strlit("tuesday");
        assert("tuesday"@.len() == 7);
        reveal_strlit("wednesday");
        assert("wednesday"@.len() == 9);
        reveal_strlit("thursday");
        assert("thursday"@.len() == 8 && "thursday"@[0] == 't');
        reveal_strlit("friday");
        assert("friday"@.len() == 6 && "friday"@[0] == 'f');
        reveal_strlit("saturday");
        assert("saturday"@.len() == 8 && "saturday"@[0] == 's');
    }
}

/// A season of the year.
#[derive(Copy, Clone, Debug, PartialEq, Eq, Structural)]
pub enum SeasonType {
    Winter,
    Spring,
    Summer,
    Fall,
}

impl SeasonType {
    /// The name of this value on the wire.
    pub open spec fn name(self) -> Seq<char> {
        match self {
            SeasonType::Winter => "winter"@,
            SeasonType::Spring => "spring"@,
            SeasonType::Summer => "summer"@,
            SeasonType::Fall => "fall"@,
        }
    }

    /// The name of this value on the wire.
    pub fn as_str(self) -> (text: &'static str)
        ensures
            text@ == self.name(),
    {
        match self {
            SeasonType::Winter => "winter",
            SeasonType::Spring => "spring",
            SeasonType::Summer => "summer",
            SeasonType::Fall => "fall",
        }
    }

    /// The value whose name on the wire is `text`, if there is one.
    pub fn from_str(text: &str) -> (value: Option<SeasonType>)
        ensures
            match value {
                Some(v) => v.name() == text@,
                None => forall|v: SeasonType| #[trigger] v.name() != text@,
            },
            forall|v: SeasonType| #[trigger] v.name() == text@ ==> value == Some(v),
    {
        let value = if text_eq(text, "winter") {
            Some(SeasonType::Winter)
        } else if text_eq(text, "spring") {
            Some(SeasonType::Spring)
        } else if text_eq(text, "summer") {
            Some(SeasonType::Summer)
        } else if text_eq(text, "fall") {
            Some(SeasonType::Fall)
        } else {
            None
        };
        assert forall|v: SeasonType| #[trigger] v.name() == text@ implies value == Some(v) by {
            if value is Some {
                SeasonType::lemma_name_is_unique(v, value->0);
            }
        }
        value
    }

    /// No two values have the same name on the wire.
    pub proof fn lemma_name_is_unique(a: SeasonType, b: SeasonType)
        requires
            a.name() == b.name(),
        ensures
            a == b,
    {
        reveal_strlit("winter");
        assert("winter"@.len() == 6 && "winter"@[0] == 'w');
        reveal_strlit("spring");
        assert("spring"@.len() == 6 && "spring"@[0] == 's' && "spring"@[1] == 'p');
        reveal_strlit("summer");
        assert("summer"@.len() == 6 && "summer"@[0] == 's' && "summer"@[1] == 'u');
        reveal_strlit("fall");
        assert("fall"@.len() == 4);
    }
}

/// Whether an anime has aired.
#[derive(Copy, Clone, Debug, PartialEq, Eq, Structural)]
pub enum AiringStatus {
    FinishedAiring,
    CurrentlyAiring,
    NotYetAired,
}

impl AiringStatus {
    /// The name of this value on the wire.
    pub open spec fn name(self) -> Seq<char> {
        match self {
            AiringStatus::FinishedAiring => "finished_airing"@,
            AiringStatus::CurrentlyAiring => "currently_airing"@,
            AiringStatus::NotYetAired => "not_yet_aired"@,
        }
    }

    /// The name of this value on the wire.
    pub fn as_str(self) -> (text: &'static str)
        ensures
            text@ == self.name(),
    {
        match self {
            AiringStatus::FinishedAiring => "finished_airing",
            AiringStatus::CurrentlyAiring => "currently_airing",
            AiringStatus::NotYetAired => "not_yet_aired",
        }
    }

    /// The value whose name on the wire is `text`, if there is one.
    pub fn from_str(text: &str) -> (value: Option<AiringStatus>)
        ensures
            match value {
                Some(v) => v.name() == text@,
                None => forall|v: AiringStatus| #[trigger] v.name() != text@,
            },
            forall|v: AiringStatus| #[trigger] v.name() == text@ ==> value == Some(v),
    {
        let value = if text_eq(text, "finished_airing") {
            Some(AiringStatus::FinishedAiring)
        } else if text_eq(text, "currently_airing") {
            Some(AiringStatus::CurrentlyAiring)
        } else if text_eq(text, "not_yet_aired") {
            Some(AiringStatus::NotYetAired)
        } else {
            None
        };
        assert forall|v: AiringStatus| #[trigger] v.name() == text@ implies value == Some(v) by {
            if value is Some {
                AiringStatus::lemma_name_is_unique(v, value->0);
            }
        }
        value
    }

    /// No two values have the same name on the wire.
    pub proof fn lemma_name_is_unique(a: AiringStatus, b: AiringStatus)
        requires
            a.name() == b.name(),
        ensures
            a == b,
    {
        reveal_strlit("finished_airing");
        assert("finished_airing"@.len() == 15);
        reveal_strlit("currently_airing");
        assert("currently_airing"@.len() == 16);
        reveal_strlit("not_yet_aired");
        assert("not_yet_aired"@.len() == 13);
    }
}

/// Whether a manga has been published.
#[derive(Copy, Clone, Debug, PartialEq, Eq, Structural)]
pub enum PublishingStatus {
    Finished,
    CurrentlyPublishing,
    NotYetPublished,
}

impl PublishingStatus {
    /// The name of this value on the wire.
    pub open spec fn name(self) -> Seq<char> {
        match self {
            PublishingStatus::Finished => "finished"@,
            PublishingStatus::CurrentlyPublishing => "currently_publishing"@,
            PublishingStatus::NotYetPublished => "not_yet_published"@,
        }
    }

    /// The name of this value on the wire.
    pub fn as_str(self) -> (text: &'static str)
        ensures
            text@ == self.name(),
    {
        match self {
            PublishingStatus::Finished => "finished",
            PublishingStatus::CurrentlyPublishing => "currently_publishing",
            PublishingStatus::NotYetPublished => "not_yet_published",
        }
    }

    /// The value whose name on the wire is `text`, if there is one.
    pub fn from_str(text: &str) -> (value: Option<PublishingStatus>)
        ensures
            match value {
                Some(v) => v.name() == text@,
                None => forall|v: PublishingStatus| #[trigger] v.name() != text@,
            },
            forall|v: PublishingStatus| #[trigger] v.name() == text@ ==> value == Some(v),
    {
        let value = if text_eq(text, "finished") {
            Some(PublishingStatus::Finished)
        } else if text_eq(text, "currently_publishing") {
            Some(PublishingStatus::CurrentlyPublishing)
        } else if text_eq(text, "not_yet_published") {
            Some(PublishingStatus::NotYetPublished)
        } else {
            None
        };
        assert forall|v: PublishingStatus| #[trigger] v.name() == text@ implies value == Some(v) by {
            if value is Some {
                PublishingStatus::lemma_name_is_unique(v, value->0);
            }
        }
        value
    }

    /// No two values have the same name on the wire.
    pub proof fn lemma_name_is_unique(a: PublishingStatus, b: PublishingStatus)
        requires
            a.name() == b.name(),
        ensures
            a == b,
    {
        reveal_strlit("finished");
        assert("finished"@.len() == 8);
        reveal_strlit("currently_publishing");
        assert("currently_publishing"@.len() == 20);
        reveal_strlit("not_yet_published");
        assert("not_yet_published"@.len() == 17);
    }
}

/// A genre, an explicit genre, a theme or a demographic.
#[derive(Copy, Clone, Debug, PartialEq, Eq, Structural)]
pub enum GenreType {
    Action,
    Adventure,
    AvantGarde,
    AwardWinning,
    BoysLove,
    Comedy,
    Drama,
    Fantasy,
    GirlsLove,
    Gourmet,
    Horror,
    Mystery,
    Romance,
    SciFi,
    SliceOfLife,
    Sports,
    Supernatural,
    Suspense,
    Ecchi,
    Erotica,
    Hentai,
    AdultCast,
    Anthropomorphic,
    CGDCT,
    CombatSports,
    Crossdressing,
    Delinquents,
    Detective,
    Educational,
    GagHumor,
    Gore,
    Harem,
    HighStakesGame,
    Historical,
    IdolsFemale,
    IdolsMale,
    Isekai,
    Iyashikei,
    LovePolygon,
    MagicalSexShift,
    MahouShoujo,
    MartialArts,
    Mecha,
    Medical,
    Military,
    Music,
    Mythology,
    OrganizedCrime,
    OtakuCulture,
    Parody,
    PerformingArts,
    Psychological,
    Racing,
    Reincarnation,
    ReverseHarem,
    RomanticSubtext,
    Samurai,
    School,
    Showbiz,
    Space,
    StrategyGame,
    SuperPower,
    Survival,
    TeamSports,
    TimeTravel,
    Vampire,
    VideoGame,
    VisualArts,
    Workplace,
    Josei,
    Kids,
    Seinen,
    Shoujo,
    Shounen,
}

impl GenreType {
    /// The name of this value on the wire.
    pub open spec fn name(self) -> Seq<char> {
        match self {
            GenreType::Action => "Action"@,
            GenreType::Adventure => "Adventure"@,
            GenreType::AvantGarde => "Avant Garde"@,
            GenreType::AwardWinning => "Award Winning"@,
            GenreType::BoysLove => "Boys Love"@,
            GenreType::Comedy => "Comedy"@,
            GenreType::Drama => "Drama"@,
            GenreType::Fantasy => "Fantasy"@,
            GenreType::GirlsLove => "Girls Love"@,
            GenreType::Gourmet => "Gourmet"@,
            GenreType::Horror => "Horror"@,
            GenreType::Mystery => "Mystery"@,
            GenreType::Romance => "Romance"@,
            GenreType::SciFi => "Sci-Fi"@,
            GenreType::SliceOfLife => "Slice of Life"@,
            GenreType::Sports => "Sports"@,
            GenreType::Supernatural => "Supernatural"@,
            GenreType::Suspense => "Suspense"@,
            GenreType::Ecchi => "Ecchi"@,
            GenreType::Erotica => "Erotica"@,
            GenreType::Hentai => "Hentai"@,
            GenreType::AdultCast => "Adult Cast"@,
            GenreType::Anthropomorphic => "Anthropomorphic"@,
            GenreType::CGDCT => "CGDCT"@,
            GenreType::CombatSports => "Combat Sports"@,
            GenreType::Crossdressing => "Crossdressing"@,
            GenreType::Delinquents => "Delinquents"@,
            GenreType::Detective => "Detective"@,
            GenreType::Educational => "Educational"@,
            GenreType::GagHumor => "Gag Humor"@,
            GenreType::Gore => "Gore"@,
            GenreType::Harem => "Harem"@,
            GenreType::HighStakesGame => "High Stakes Game"@,
            GenreType::Historical => "Historical"@,
            GenreType::IdolsFemale => "Idols (Female)"@,
            GenreType::IdolsMale => "Idols (Male)"@,
            GenreType::Isekai => "Isekai"@,
            GenreType::Iyashikei => "Iyashikei"@,
            GenreType::LovePolygon => "Love Polygon"@,
            GenreType::MagicalSexShift => "Magical Sex Shift"@,
            GenreType::MahouShoujo => "Mahou Shoujo"@,
            GenreType::MartialArts => "Martial Arts"@,
            GenreType::Mecha => "Mecha"@,
            GenreType::Medical => "Medical"@,
            GenreType::Military => "Military"@,
            GenreType::Music => "Music"@,
            GenreType::Mythology => "Mythology"@,
            GenreType::OrganizedCrime => "Organized Crime"@,
            GenreType::OtakuCulture => "Otaku Culture"@,
            GenreType::Parody => "Parody"@,
            GenreType::PerformingArts => "Performing Arts"@,
            GenreType::Psychological => "Psychological"@,
            GenreType::Racing => "Racing"@,
            GenreType::Reincarnation => "Reincarnation"@,
            GenreType::ReverseHarem => "Reverse Harem"@,
            GenreType::RomanticSubtext => "Romantic Subtext"@,
            GenreType::Samurai => "Samurai"@,
            GenreType::School => "School"@,
            GenreType::Showbiz => "Showbiz"@,
            GenreType::Space => "Space"@,
            GenreType::StrategyGame => "Strategy Game"@,
            GenreType::SuperPower => "Super Power"@,
            GenreType::Survival => "Survival"@,
            GenreType::TeamSports => "Team Sports"@,
            GenreType::TimeTravel => "Time Travel"@,
            GenreType::Vampire => "Vampire"@,
            GenreType::VideoGame => "Video Game"@,
            GenreType::VisualArts => "Visual Arts"@,
            GenreType::Workplace => "Workplace"@,
            GenreType::Josei => "Josei"@,
            GenreType::Kids => "Kids"@,
            GenreType::Seinen => "Seinen"@,
            GenreType::Shoujo => "Shoujo"@,
            GenreType::Shounen => "Shounen"@,
        }
    }

    /// The name of this value on the wire.
    pub fn as_str(self) -> (text: &'static str)
        ensures
            text@ == self.name(),
    {
        match self {
            GenreType::Action => "Action",
            GenreType::Adventure => "Adventure",
            GenreType::AvantGarde => "Avant Garde",
            GenreType::AwardWinning => "Award Winning",
            GenreType::BoysLove => "Boys Love",
            GenreType::Comedy => "Comedy",
            GenreType::Drama => "Drama",
            GenreType::Fantasy => "Fantasy",
            GenreType::GirlsLove => "Girls Love",
            GenreType::Gourmet => "Gourmet",
            GenreType::Horror => "Horror",
            GenreType::Mystery => "Mystery",
            GenreType::Romance => "Romance",
            GenreType::SciFi => "Sci-Fi",
            GenreType::SliceOfLife => "Slice of Life",
            GenreType::Sports => "Sports",
            GenreType::Supernatural => "Supernatural",
            GenreType::Suspense => "Suspense",
            GenreType::Ecchi => "Ecchi",
            GenreType::Erotica => "Erotica",
            GenreType::Hentai => "Hentai",
            GenreType::AdultCast => "Adult Cast",
            GenreType::Anthropomorphic => "Anthropomorphic",
            GenreType::CGDCT => "CGDCT",
            GenreType::CombatSports => "Combat Sports",
            GenreType::Crossdressing => "Crossdressing",
            GenreType::Delinquents => "Delinquents",
            GenreType::Detective => "Detective",
            GenreType::Educational => "Educational",
            GenreType::GagHumor => "Gag Humor",
            GenreType::Gore => "Gore",
            GenreType::Harem => "Harem",
            GenreType::HighStakesGame => "High Stakes Game",
            GenreType::Historical => "Historical",
            GenreType::IdolsFemale => "Idols (Female)",
            GenreType::IdolsMale => "Idols (Male)",
            GenreType::Isekai => "Isekai",
            GenreType::Iyashikei => "Iyashikei",
            GenreType::LovePolygon => "Love Polygon",
            GenreType::MagicalSexShift => "Magical Sex Shift",
            GenreType::MahouShoujo => "Mahou Shoujo",
            GenreType::MartialArts => "Martial Arts",
            GenreType::Mecha => "Mecha",
            GenreType::Medical => "Medical",
            GenreType::Military => "Military",
            GenreType::Music => "Music",
            GenreType::Mythology => "Mythology",
            GenreType::OrganizedCrime => "Organized Crime",
            GenreType::OtakuCulture => "Otaku Culture",
            GenreType::Parody => "Parody",
            GenreType::PerformingArts => "Performing Arts",
            GenreType::Psychological => "Psychological",
            GenreType::Racing => "Racing",
            GenreType::Reincarnation => "Reincarnation",
            GenreType::ReverseHarem => "Reverse Harem",
            GenreType::RomanticSubtext => "Romantic Subtext",
            GenreType::Samurai => "Samurai",
            GenreType::School => "School",
            GenreType::Showbiz => "Showbiz",
            GenreType::Space => "Space",
            GenreType::StrategyGame => "Strategy Game",
            GenreType::SuperPower => "Super Power",
            GenreType::Survival => "Survival",
            GenreType::TeamSports => "Team Sports",
            GenreType::TimeTravel => "Time Travel",
            GenreType::Vampire => "Vampire",
            GenreType::VideoGame => "Video Game",
            GenreType::VisualArts => "Visual Arts",
            GenreType::Workplace => "Workplace",
            GenreType::Josei => "Josei",
            GenreType::Kids => "Kids",
            GenreType::Seinen => "Seinen",
            GenreType::Shoujo => "Shoujo",
            GenreType::Shounen => "Shounen",
        }
    }

    /// The value whose name on the wire is `text`, if there is one.
    pub fn from_str(text: &str) -> (value: Option<GenreType>)
        ensures
            match value {
                Some(v) => v.name() == text@,
                None => forall|v: GenreType| #[trigger] v.name() != text@,
            },
            forall|v: GenreType| #[trigger] v.name() == text@ ==> value == Some(v),
    {
        let value = if text_eq(text, "Action") {
            Some(GenreType::Action)
        } else if text_eq(text, "Adventure") {
            Some(GenreType::Adventure)
        } else if text_eq(text, "Avant Garde") {
            Some(GenreType::AvantGarde)
        } else if text_eq(text, "Award Winning") {
            Some(GenreType::AwardWinning)
        } else if text_eq(text, "Boys Love") {
            Some(GenreType::BoysLove)
        } else if text_eq(text, "Comedy") {
            Some(GenreType::Comedy)
        } else if text_eq(text, "Drama") {
            Some(GenreType::Drama)
        } else if text_eq(text, "Fantasy") {
            Some(GenreType::Fantasy)
        } else if text_eq(text, "Girls Love") {
            Some(GenreType::GirlsLove)
        } else if text_eq(text, "Gourmet") {
            Some(GenreType::Gourmet)
        } else if text_eq(text, "Horror") {
            Some(GenreType::Horror)
        } else if text_eq(text, "Mystery") {
            Some(GenreType::Mystery)
        } else if text_eq(text, "Romance") {
            Some(GenreType::Romance)
        } else if text_eq(text, "Sci-Fi") {
            Some(GenreType::SciFi)
        } else if text_eq(text, "Slice of Life") {
            Some(GenreType::SliceOfLife)
        } else if text_eq(text, "Sports") {
            Some(GenreType::Sports)
        } else if text_eq(text, "Supernatural") {
            Some(GenreType::Supernatural)
        } else if text_eq(text, "Suspense") {
            Some(GenreType::Suspense)
        } else if text_eq(text, "Ecchi") {
            Some(GenreType::Ecchi)
        } else if text_eq(text, "Erotica") {
            Some(GenreType::Erotica)
        } else if text_eq(text, "Hentai") {
            Some(GenreType::Hentai)
        } else if text_eq(text, "Adult Cast") {
            Some(GenreType::AdultCast)
        } else if text_eq(text, "Anthropomorphic") {
            Some(GenreType::Anthropomorphic)
        } else if text_eq(text, "CGDCT") {
            Some(GenreType::CGDCT)
        } else if text_eq(text, "Combat Sports") {
            Some(GenreType::CombatSports)
        } else if text_eq(text, "Crossdressing") {
            Some(GenreType::Crossdressing)
        } else if text_eq(text, "Delinquents") {
            Some(GenreType::Delinquents)
        } else if text_eq(text, "Detective") {
            Some(GenreType::Detective)
        } else if text_eq(text, "Educational") {
            Some(GenreType::Educational)
        } else if text_eq(text, "Gag Humor") {
            Some(GenreType::GagHumor)
        } else if text_eq(text, "Gore") {
            Some(GenreType::Gore)
        } else if text_eq(text, "Harem") {
            Some(GenreType::Harem)
        } else if text_eq(text, "High Stakes Game") {
            Some(GenreType::HighStakesGame)
        } else if text_eq(text, "Historical") {
            Some(GenreType::Historical)
        } else if text_eq(text, "Idols (Female)") {
            Some(GenreType::IdolsFemale)
        } else if text_eq(text, "Idols (Male)") {
            Some(GenreType::IdolsMale)
        } else if text_eq(text, "Isekai") {
            Some(GenreType::Isekai)
        } else if text_eq(text, "Iyashikei") {
            Some(GenreType::Iyashikei)
        } else if text_eq(text, "Love Polygon") {
            Some(GenreType::LovePolygon)
        } else if text_eq(text, "Magical Sex Shift") {
            Some(GenreType::MagicalSexShift)
        } else if text_eq(text, "Mahou Shoujo") {
            Some(GenreType::MahouShoujo)
        } else if text_eq(text, "Martial Arts") {
            Some(GenreType::MartialArts)
        } else if text_eq(text, "Mecha") {
            Some(GenreType::Mecha)
        } else if text_eq(text, "Medical") {
            Some(GenreType::Medical)
        } else if text_eq(text, "Military") {
            Some(GenreType::Military)
        } else if text_eq(text, "Music") {
            Some(GenreType::Music)
        } else if text_eq(text, "Mythology") {
            Some(GenreType::Mythology)
        } else if text_eq(text, "Organized Crime") {
            Some(GenreType::OrganizedCrime)
        } else if text_eq(text, "Otaku Culture") {
            Some(GenreType::OtakuCulture)
        } else if text_eq(text, "Parody") {
            Some(GenreType::Parody)
        } else if text_eq(text, "Performing Arts") {
            Some(GenreType::PerformingArts)
        } else if text_eq(text, "Psychological") {
            Some(GenreType::Psychological)
        } else if text_eq(text, "Racing") {
            Some(GenreType::Racing)
        } else if text_eq(text, "Reincarnation") {
            Some(GenreType::Reincarnation)
        } else if text_eq(text, "Reverse Harem") {
            Some(GenreType::ReverseHarem)
        } else if text_eq(text, "Romantic Subtext") {
            Some(GenreType::RomanticSubtext)
        } else if text_eq(text, "Samurai") {
            Some(GenreType::Samurai)
        } else if text_eq(text, "School") {
            Some(GenreType::School)
        } else if text_eq(text, "Showbiz") {
            Some(GenreType::Showbiz)
        } else if text_eq(text, "Space") {
            Some(GenreType::Space)
        } else if text_eq(text, "Strategy Game") {
            Some(GenreType::StrategyGame)
        } else if text_eq(text, "Super Power") {
            Some(GenreType::SuperPower)
        } else if text_eq(text, "Survival") {
            Some(GenreType::Survival)
        } else if text_eq(text, "Team Sports") {
            Some(GenreType::TeamSports)
        } else if text_eq(text, "Time Travel") {
            Some(GenreType::TimeTravel)
        } else if text_eq(text, "Vampire") {
            Some(GenreType::Vampire)
        } else if text_eq(text, "Video Game") {
            Some(GenreType::VideoGame)
        } else if text_eq(text, "Visual Arts") {
            Some(GenreType::VisualArts)
        } else if text_eq(text, "Workplace") {
            Some(GenreType::Workplace)
        } else if text_eq(text, "Josei") {
            Some(GenreType::Josei)
        } else if text_eq(text, "Kids") {
            Some(GenreType::Kids)
        } else if text_eq(text, "Seinen") {
            Some(GenreType::Seinen)
        } else if text_eq(text, "Shoujo") {
            Some(GenreType::Shoujo)
        } else if text_eq(text, "Shounen") {
            Some(GenreType::Shounen)
        } else {
            None
        };
        assert forall|v: GenreType| #[trigger] v.name() == text@ implies value == Some(v) by {
            if value is Some {
                GenreType::lemma_name_is_unique(v, value->0);
            }
        }
        value
    }

    /// No two values have the same name on the wire.
    pub proof fn lemma_name_is_unique(a: GenreType, b: GenreType)
        requires
            a.name() == b.name(),
        ensures
            a == b,
    {
        reveal_strlit("Action");
        assert("Action"@.len() == 6 && "Action"@[0] == 'A');
        reveal_strlit("Adventure");
        assert("Adventure"@.len() == 9 && "Adventure"@[0] == 'A');
        reveal_strlit("Avant Garde");
        assert("Avant Garde"@.len() == 11 && "Avant Garde"@[0] == 'A');
        reveal_strlit("Award Winning");
        assert("Award Winning"@.len() == 13 && "Award Winning"@[0] == 'A');
        reveal_strlit("Boys Love");
        assert("Boys Love"@.len() == 9 && "Boys Love"@[0] == 'B');
        reveal_strlit("Comedy");
        assert("Comedy"@.len() == 6 && "Comedy"@[0] == 'C');
        reveal_strlit("Drama");
        assert("Drama"@.len() == 5 && "Drama"@[0] == 'D');
        reveal_strlit("Fantasy");
        assert("Fantasy"@.len() == 7 && "Fantasy"@[0] == 'F');
        reveal_strlit("Girls Love");
        assert("Girls Love"@.len() == 10 && "Girls Love"@[0] == 'G');
        reveal_strlit("Gourmet");
        assert("Gourmet"@.len() == 7 && "Gourmet"@[0] == 'G');
        reveal_strlit("Horror");
        assert("Horror"@.len() == 6 && "Horror"@[0] == 'H' && "Horror"@[1] == 'o');
        reveal_strlit("Mystery");
        assert("Mystery"@.len() == 7 && "Mystery"@[0] == 'M' && "Mystery"@[1] == 'y');
        reveal_strlit("Romance");
        assert("Romance"@.len() == 7 && "Romance"@[0] == 'R');
        reveal_strlit("Sci-Fi");
        assert("Sci-Fi"@.len() == 6
            && "Sci-Fi"@[0] == 'S'
            && "Sci-Fi"@[1] == 'c'
            && "Sci-Fi"@[2] == 'i');
        reveal_strlit("Slice of Life");
        assert("Slice of Life"@.len() == 13
            && "Slice of Life"@[0] == 'S'
            && "Slice of Life"@[1] == 'l');
        reveal_strlit("Sports");
        assert("Sports"@.len() == 6 && "Sports"@[0] == 'S' && "Sports"@[1] == 'p');
        reveal_strlit("Supernatural");
        assert("Supernatural"@.len() == 12 && "Supernatural"@[0] == 'S');
        reveal_strlit("Suspense");
        assert("Suspense"@.len() == 8 && "Suspense"@[0] == 'S' && "Suspense"@[2] == 's');
        reveal_strlit("Ecchi");
        assert("Ecchi"@.len() == 5 && "Ecchi"@[0] == 'E');
        reveal_strlit("Erotica");
        assert("Erotica"@.len() == 7 && "Erotica"@[0] == 'E');
        reveal_strlit("Hentai");
        assert("Hentai"@.len() == 6 && "Hentai"@[0] == 'H' && "Hentai"@[1] == 'e');
        reveal_strlit("Adult Cast");
        assert("Adult Cast"@.len() == 10 && "Adult Cast"@[0] == 'A');
        reveal_strlit("Anthropomorphic");
        assert("Anthropomorphic"@.len() == 15 && "Anthropomorphic"@[0] == 'A');
        reveal_strlit("CGDCT");
        assert("CGDCT"@.len() == 5 && "CGDCT"@[0] == 'C');
        reveal_strlit("Combat Sports");
        assert("Combat Sports"@.len() == 13
            && "Combat Sports"@[0] == 'C'
            && "Combat Sports"@[1] == 'o');
        reveal_strlit("Crossdressing");
        assert("Crossdressing"@.len() == 13
            && "Crossdressing"@[0] == 'C'
            && "Crossdressing"@[1] == 'r');
        reveal_strlit("Delinquents");
        assert("Delinquents"@.len() == 11 && "Delinquents"@[0] == 'D');
        reveal_strlit("Detective");
        assert("Detective"@.len() == 9 && "Detective"@[0] == 'D');
        reveal_strlit("Educational");
        assert("Educational"@.len() == 11 && "Educational"@[0] == 'E');
        reveal_strlit("Gag Humor");
        assert("Gag Humor"@.len() == 9 && "Gag Humor"@[0] == 'G');
        reveal_strlit("Gore");
        assert("Gore"@.len() == 4 && "Gore"@[0] == 'G');
        reveal_strlit("Harem");
        assert("Harem"@.len() == 5 && "Harem"@[0] == 'H');
        reveal_strlit("High Stakes Game");
        assert("High Stakes Game"@.len() == 16 && "High Stakes Game"@[0] == 'H');
        reveal_strlit("Historical");
        assert("Historical"@.len() == 10 && "Historical"@[0] == 'H');
        reveal_strlit("Idols (Female)");
        assert("Idols (Female)"@.len() == 14);
        reveal_strlit("Idols (Male)");
        assert("Idols (Male)"@.len() == 12 && "Idols (Male)"@[0] == 'I');
        reveal_strlit("Isekai");
        assert("Isekai"@.len() == 6 && "Isekai"@[0] == 'I');
        reveal_strlit("Iyashikei");
        assert("Iyashikei"@.len() == 9 && "Iyashikei"@[0] == 'I');
        reveal_strlit("Love Polygon");
        assert("Love Polygon"@.len() == 12 && "Love Polygon"@[0] == 'L');
        reveal_strlit("Magical Sex Shift");
        assert("Magical Sex Shift"@.len() == 17);
        reveal_strlit("Mahou Shoujo");
        assert("Mahou Shoujo"@.len() == 12
            && "Mahou Shoujo"@[0] == 'M'
            && "Mahou Shoujo"@[2] == 'h');
        reveal_strlit("Martial Arts");
        assert("Martial Arts"@.len() == 12
            && "Martial Arts"@[0] == 'M'
            && "Martial Arts"@[2] == 'r');
        reveal_strlit("Mecha");
        assert("Mecha"@.len() == 5 && "Mecha"@[0] == 'M' && "Mecha"@[1] == 'e');
        reveal_strlit("Medical");
        assert("Medical"@.len() == 7 && "Medical"@[0] == 'M' && "Medical"@[1] == 'e');
        reveal_strlit("Military");
        assert("Military"@.len() == 8 && "Military"@[0] == 'M');
        reveal_strlit("Music");
        assert("Music"@.len() == 5 && "Music"@[0] == 'M' && "Music"@[1] == 'u');
        reveal_strlit("Mythology");
        assert("Mythology"@.len() == 9 && "Mythology"@[0] == 'M');
        reveal_strlit("Organized Crime");
        assert("Organized Crime"@.len() == 15 && "Organized Crime"@[0] == 'O');
        reveal_strlit("Otaku Culture");
        assert("Otaku Culture"@.len() == 13 && "Otaku Culture"@[0] == 'O');
        reveal_strlit("Parody");
        assert("Parody"@.len() == 6 && "Parody"@[0] == 'P');
        reveal_strlit("Performing Arts");
        assert("Performing Arts"@.len() == 15 && "Performing Arts"@[0] == 'P');
        reveal_strlit("Psychological");
        assert("Psychological"@.len() == 13 && "Psychological"@[0] == 'P');
        reveal_strlit("Racing");
        assert("Racing"@.len() == 6 && "Racing"@[0] == 'R');
        reveal_strlit("Reincarnation");
        assert("Reincarnation"@.len() == 13
            && "Reincarnation"@[0] == 'R'
            && "Reincarnation"@[2] == 'i');
        reveal_strlit("Reverse Harem");
        assert("Reverse Harem"@.len() == 13
            && "Reverse Harem"@[0] == 'R'
            && "Reverse Harem"@[2] == 'v');
        reveal_strlit("Romantic Subtext");
        assert("Romantic Subtext"@.len() == 16 && "Romantic Subtext"@[0] == 'R');
        reveal_strlit("Samurai");
        assert("Samurai"@.len() == 7 && "Samurai"@[0] == 'S' && "Samurai"@[1] == 'a');
        reveal_strlit("School");
        assert("School"@.len() == 6
            && "School"@[0] == 'S'
            && "School"@[1] == 'c'
            && "School"@[2] == 'h');
        reveal_strlit("Showbiz");
        assert("Showbiz"@.len() == 7
            && "Showbiz"@[0] == 'S'
            && "Showbiz"@[1] == 'h'
            && "Showbiz"@[3] == 'w');
        reveal_strlit("Space");
        assert("Space"@.len() == 5 && "Space"@[0] == 'S');
        reveal_strlit("Strategy Game");
        assert("Strategy Game"@.len() == 13
            && "Strategy Game"@[0] == 'S'
            && "Strategy Game"@[1] == 't');
        reveal_strlit("Super Power");
        assert("Super Power"@.len() == 11 && "Super Power"@[0] == 'S');
        reveal_strlit("Survival");
        assert("Survival"@.len() == 8 && "Survival"@[0] == 'S' && "Survival"@[2] == 'r');
        reveal_strlit("Team Sports");
        assert("Team Sports"@.len() == 11 && "Team Sports"@[0] == 'T' && "Team Sports"@[1] == 'e');
        reveal_strlit("Time Travel");
        assert("Time Travel"@.len() == 11 && "Time Travel"@[0] == 'T' && "Time Travel"@[1] == 'i');
        reveal_strlit("Vampire");
        assert("Vampire"@.len() == 7 && "Vampire"@[0] == 'V');
        reveal_strlit("Video Game");
        assert("Video Game"@.len() == 10 && "Video Game"@[0] == 'V');
        reveal_strlit("Visual Arts");
        assert("Visual Arts"@.len() == 11 && "Visual Arts"@[0] == 'V');
        reveal_strlit("Workplace");
        assert("Workplace"@.len() == 9 && "Workplace"@[0] == 'W');
        reveal_strlit("Josei");
        assert("Josei"@.len() == 5 && "Josei"@[0] == 'J');
        reveal_strlit("Kids");
        assert("Kids"@.len() == 4 && "Kids"@[0] == 'K');
        reveal_strlit("Seinen");
        assert("Seinen"@.len() == 6 && "Seinen"@[0] == 'S' && "Seinen"@[1] == 'e');
        reveal_strlit("Shoujo");
        assert("Shoujo"@.len() == 6 && "Shoujo"@[0] == 'S' && "Shoujo"@[1] == 'h');
        reveal_strlit("Shounen");
        assert("Shounen"@.len() == 7
            && "Shounen"@[0] == 'S'
            && "Shounen"@[1] == 'h'
            && "Shounen"@[3] == 'u');
    }
}

/// Which ranking of anime is asked for.
#[derive(Copy, Clone, Debug, PartialEq, Eq, Structural)]
pub enum AnimeRankingType {
    /// Top Anime Series
    All,
    /// Top Airing Anime
    Airing,
    /// Top Upcoming Anime
    Upcoming,
    /// Top Anime TV Series
    Tv,
    /// Top Anime OVA Series
    Ova,
    /// Top Anime Movies
    Movie,
    /// Top Anime Special
    Special,
    /// Top Anime by Popularity
    ByPopularity,
    /// Top Favorited Anime
    Favorite,
}

impl AnimeRankingType {
    /// The name of this value on the wire.
    pub open spec fn name(self) -> Seq<char> {
        match self {
            AnimeRankingType::All => "all"@,
            AnimeRankingType::Airing => "airing"@,
            AnimeRankingType::Upcoming => "upcoming"@,
            AnimeRankingType::Tv => "tv"@,
            AnimeRankingType::Ova => "ova"@,
            AnimeRankingType::Movie => "movie"@,
            AnimeRankingType::Special => "special"@,
            AnimeRankingType::ByPopularity => "bypopularity"@,
            AnimeRankingType::Favorite => "favorite"@,
        }
    }

    /// The name of this value on the wire.
    pub fn as_str(self) -> (text: &'static str)
        ensures
            text@ == self.name(),
    {
        match self {
            AnimeRankingType::All => "all",
            AnimeRankingType::Airing => "airing",
            AnimeRankingType::Upcoming => "upcoming",
            AnimeRankingType::Tv => "tv",
            AnimeRankingType::Ova => "ova",
            AnimeRankingType::Movie => "movie",
            AnimeRankingType::Special => "special",
            AnimeRankingType::ByPopularity => "bypopularity",
            AnimeRankingType::Favorite => "favorite",
        }
    }

    /// The value whose name on the wire is `text`, if there is one.
    pub fn from_str(text: &str) -> (value: Option<AnimeRankingType>)
        ensures
            match value {
                Some(v) => v.name() == text@,
                None => forall|v: AnimeRankingType| #[trigger] v.name() != text@,
            },
            forall|v: AnimeRankingType| #[trigger] v.name() == text@ ==> value == Some(v),
    {
        let value = if text_eq(text, "all") {
            Some(AnimeRankingType::All)
        } else if text_eq(text, "airing") {
            Some(AnimeRankingType::Airing)
        } else if text_eq(text, "upcoming") {
            Some(AnimeRankingType::Upcoming)
        } else if text_eq(text, "tv") {
            Some(AnimeRankingType::Tv)
        } else if text_eq(text, "ova") {
            Some(AnimeRankingType::Ova)
        } else if text_eq(text, "movie") {
            Some(AnimeRankingType::Movie)
        } else if text_eq(text, "special") {
            Some(AnimeRankingType::Special)
        } else if text_eq(text, "bypopularity") {
            Some(AnimeRankingType::ByPopularity)
        } else if text_eq(text, "favorite") {
            Some(AnimeRankingType::Favorite)
        } else {
            None
        };
        assert forall|v: AnimeRankingType| #[trigger] v.name() == text@ implies value == Some(v) by {
            if value is Some {
                AnimeRankingType::lemma_name_is_unique(v, value->0);
            }
        }
        value
    }

    /// No two values have the same name on the wire.
    pub proof fn lemma_name_is_unique(a: AnimeRankingType, b: AnimeRankingType)
        requires
            a.name() == b.name(),
        ensures
            a == b,
    {
        reveal_strlit("all");
        assert("all"@.len() == 3 && "all"@[0] == 'a');
        reveal_strlit("airing");
        assert("airing"@.len() == 6);
        reveal_strlit("upcoming");
        assert("upcoming"@.len() == 8 && "upcoming"@[0] == 'u');
        reveal_strlit("tv");
        assert("tv"@.len() == 2);
        reveal_strlit("ova");
        assert("ova"@.len() == 3 && "ova"@[0] == 'o');
        reveal_strlit("movie");
        assert("movie"@.len() == 5);
        reveal_strlit("special");
        assert("special"@.len() == 7);
        reveal_strlit("bypopularity");
        assert("bypopularity"@.len() == 12);
        reveal_strlit("favorite");
        assert("favorite"@.len() == 8 && "favorite"@[0] == 'f');
    }
}

/// Which ranking of manga is asked for.
#[derive(Copy, Clone, Debug, PartialEq, Eq, Structural)]
pub enum MangaRankingType {
    /// All
    All,
    /// Top Manga
    Manga,
    /// Top Novels
    Novels,
    /// Top One-shots
    OneShots,
    /// Top Doujinshi
    Doujin,
    /// Top Manhwa
    Manhwa,
    /// Top Manhua
    Manhua,
    /// Most Popular
    ByPopularity,
    /// Most Favorited
    Favorite,
}

impl MangaRankingType {
    /// The name of this value on the wire.
    pub open spec fn name(self) -> Seq<char> {
        match self {
            MangaRankingType::All => "all"@,
            MangaRankingType::Manga => "manga"@,
            MangaRankingType::Novels => "novels"@,
            MangaRankingType::OneShots => "oneshots"@,
            MangaRankingType::Doujin => "doujin"@,
            MangaRankingType::Manhwa => "manhwa"@,
            MangaRankingType::Manhua => "manhua"@,
            MangaRankingType::ByPopularity => "bypopularity"@,
            MangaRankingType::Favorite => "favorite"@,
        }
    }

    /// The name of this value on the wire.
    pub fn as_str(self) -> (text: &'static str)
        ensures
            text@ == self.name(),
    {
        match self {
            MangaRankingType::All => "all",
            MangaRankingType::Manga => "manga",
            MangaRankingType::Novels => "novels",
            MangaRankingType::OneShots => "oneshots",
            MangaRankingType::Doujin => "doujin",
            MangaRankingType::Manhwa => "manhwa",
            MangaRankingType::Manhua => "manhua",
            MangaRankingType::ByPopularity => "bypopularity",
            MangaRankingType::Favorite => "favorite",
        }
    }

    /// The value whose name on the wire is `text`, if there is one.
    pub fn from_str(text: &str) -> (value: Option<MangaRankingType>)
        ensures
            match value {
                Some(v) => v.name() == text@,
                None => forall|v: MangaRankingType| #[trigger] v.name() != text@,
            },
            forall|v: MangaRankingType| #[trigger] v.name() == text@ ==> value == Some(v),
    {
        let value = if text_eq(text, "all") {
            Some(MangaRankingType::All)
        } else if text_eq(text, "manga") {
            Some(MangaRankingType::Manga)
        } else if text_eq(text, "novels") {
            Some(MangaRankingType::Novels)
        } else if text_eq(text, "oneshots") {
            Some(MangaRankingType::OneShots)
        } else if text_eq(text, "doujin") {
            Some(MangaRankingType::Doujin)
        } else if text_eq(text, "manhwa") {
            Some(MangaRankingType::Manhwa)
        } else if text_eq(text, "manhua") {
            Some(MangaRankingType::Manhua)
        } else if text_eq(text, "bypopularity") {
            Some(MangaRankingType::ByPopularity)
        } else if text_eq(text, "favorite") {
            Some(MangaRankingType::Favorite)
        } else {
            None
        };
        assert forall|v: MangaRankingType| #[trigger] v.name() == text@ implies value == Some(v) by {
            if value is Some {
                MangaRankingType::lemma_name_is_unique(v, value->0);
            }
        }
        value
    }

    /// No two values have the same name on the wire.
    pub proof fn lemma_name_is_unique(a: MangaRankingType, b: MangaRankingType)
        requires
            a.name() == b.name(),
        ensures
            a == b,
    {
        reveal_strlit("all");
        assert("all"@.len() == 3);
        reveal_strlit("manga");
        assert("manga"@.len() == 5);
        reveal_strlit("novels");
        assert("novels"@.len() == 6 && "novels"@[0] == 'n');
        reveal_strlit("oneshots");
        assert("oneshots"@.len() == 8 && "oneshots"@[0] == 'o');
        reveal_strlit("doujin");
        assert("doujin"@.len() == 6 && "doujin"@[0] == 'd');
        reveal_strlit("manhwa");
        assert("manhwa"@.len() == 6 && "manhwa"@[0] == 'm' && "manhwa"@[4] == 'w');
        reveal_strlit("manhua");
        assert("manhua"@.len() == 6 && "manhua"@[0] == 'm' && "manhua"@[4] == 'u');
        reveal_strlit("bypopularity");
        assert("bypopularity"@.len() == 12);
        reveal_strlit("favorite");
        assert("favorite"@.len() == 8 && "favorite"@[0] == 'f');
    }
}

/// How the anime of a season are ordered.
#[derive(Copy, Clone, Debug, PartialEq, Eq, Structural)]
pub enum AnimeSeasonSort {
    AnimeScore,
    AnimeNumListUsers,
}

impl AnimeSeasonSort {
    /// The name of this value on the wire.
    pub open spec fn name(self) -> Seq<char> {
        match self {
            AnimeSeasonSort::AnimeScore => "anime_score"@,
            AnimeSeasonSort::AnimeNumListUsers => "anime_num_list_users"@,
        }
    }

    /// The name of this value on the wire.
    pub fn as_str(self) -> (text: &'static str)
        ensures
            text@ == self.name(),
    {
        match self {
            AnimeSeasonSort::AnimeScore => "anime_score",
            AnimeSeasonSort::AnimeNumListUsers => "anime_num_list_users",
        }
    }

    /// The value whose name on the wire is `text`, if there is one.
    pub fn from_str(text: &str) -> (value: Option<AnimeSeasonSort>)
        ensures
            match value {
                Some(v) => v.name() == text@,
                None => forall|v: AnimeSeasonSort| #[trigger] v.name() != text@,
            },
            forall|v: AnimeSeasonSort| #[trigger] v.name() == text@ ==> value == Some(v),
    {
        let value = if text_eq(text, "anime_score") {
            Some(AnimeSeasonSort::AnimeScore)
        } else if text_eq(text, "anime_num_list_users") {
            Some(AnimeSeasonSort::AnimeNumListUsers)
        } else {
            None
        };
        assert forall|v: AnimeSeasonSort| #[trigger] v.name() == text@ implies value == Some(v) by {
            if value is Some {
                AnimeSeasonSort::lemma_name_is_unique(v, value->0);
            }
        }
        value
    }

    /// No two values have the same name on the wire.
    pub proof fn lemma_name_is_unique(a: AnimeSeasonSort, b: AnimeSeasonSort)
        requires
            a.name() == b.name(),
        ensures
            a == b,
    {
        reveal_strlit("anime_score");
        assert("anime_score"@.len() == 11);
        reveal_strlit("anime_num_list_users");
        assert("anime_num_list_users"@.len() == 20);
    }
}

/// How forum topics are ordered.
#[derive(Copy, Clone, Debug, PartialEq, Eq, Structural)]
pub enum ForumSort {
    Recent,
}

impl ForumSort {
    /// The name of this value on the wire.
    pub open spec fn name(self) -> Seq<char> {
        match self {
            ForumSort::Recent => "recent"@,
        }
    }

    /// The name of this value on the wire.
    pub fn as_str(self) -> (text: &'static str)
        ensures
            text@ == self.name(),
    {
        match self {
            ForumSort::Recent => "recent",
        }
    }

    /// The value whose name on the wire is `text`, if there is one.
    pub fn from_str(text: &str) -> (value: Option<ForumSort>)
        ensures
            match value {
                Some(v) => v.name() == text@,
                None => forall|v: ForumSort| #[trigger] v.name() != text@,
            },
            forall|v: ForumSort| #[trigger] v.name() == text@ ==> value == Some(v),
    {
        let value = if text_eq(text, "recent") {
            Some(ForumSort::Recent)
        } else {
            None
        };
        assert forall|v: ForumSort| #[trigger] v.name() == text@ implies value == Some(v) by {
            if value is Some {
                ForumSort::lemma_name_is_unique(v, value->0);
            }
        }
        value
    }

    /// No two values have the same name on the wire.
    pub proof fn lemma_name_is_unique(a: ForumSort, b: ForumSort)
        requires
            a.name() == b.name(),
        ensures
            a == b,
    {
        reveal_strlit("recent");
        assert("recent"@.len() == 6);
    }
}

/// A magazine a manga ran in, as an item of a list.
#[derive(Clone, Debug, PartialEq)]
pub struct SingleMangaSerializationItem {
    pub node: MangaSerialization,
}

/// The links to the neighbouring pages of a list.
#[derive(Clone, Debug, PartialEq)]
pub struct Paging {
    pub previous: Option<String>,
    pub next: Option<String>,
}

/// A place in a ranking.
#[derive(Clone, Debug, PartialEq)]
pub struct Rank {
    pub rank: u64,
}

/// Someone who worked on a manga, and as what.
#[derive(Clone, Debug, PartialEq)]
pub struct Author {
    pub node: Person,
    pub role: String,
}

/// A person.
#[derive(Clone, Debug, PartialEq)]
pub struct Person {
    pub id: u32,
    pub first_name: String,
    pub last_name: String,
}

/// How many users have an anime on their list.
#[derive(Clone, Debug, PartialEq)]
pub struct AnimeNodeStatistics {
    pub status: AnimeNodeStatus,
    pub num_list_users: u64,
}

/// How many users have an anime on their list, by status.
#[derive(Clone, Debug, PartialEq)]
pub struct AnimeNodeStatus {
    pub watching: u64,
    pub completed: u64,
    pub on_hold: u64,
    pub dropped: u64,
    pub plan_to_watch: u64,
}

/// An animation studio.
#[derive(Clone, Debug, PartialEq)]
pub struct Studio {
    pub id: u32,
    pub name: String,
}

/// A magazine a manga ran in.
#[derive(Clone, Debug, PartialEq)]
pub struct MangaSerialization {
    pub id: u32,
    pub name: String,
}

/// A season of a year.
#[derive(Copy, Clone, Debug, PartialEq, Eq, Structural)]
pub struct Season {
    pub year: u32,
    pub season: SeasonType,
}

/// A genre with its id.
#[derive(Clone, Debug, PartialEq)]
pub struct Genre {
    pub id: u32,
    pub name: GenreType,
}

/// Other titles of a work.
#[derive(Clone, Debug, PartialEq)]
pub struct AlternativeTitles {
    pub synonyms: Option<Vec<String>>,
    pub en: Option<String>,
    pub ja: Option<String>,
}

/// A picture in two sizes.
#[derive(Clone, Debug, PartialEq)]
pub struct Picture {
    pub medium: String,
    pub large: String,
}

/// The boards of the forum, by category.
#[derive(Clone, Debug, PartialEq)]
pub struct ForumBoards {
    pub categories: Vec<ForumBoard>,
}

/// A category of forum boards.
#[derive(Clone, Debug, PartialEq)]
pub struct ForumBoard {
    pub title: String,
    pub boards: Vec<Board>,
}

/// A forum board.
#[derive(Clone, Debug, PartialEq)]
pub struct Board {
    pub id: u32,
    pub title: String,
    pub description: String,
    pub subboards: Vec<SubBoard>,
}

/// A board below a forum board.
#[derive(Clone, Debug, PartialEq)]
pub struct SubBoard {
    pub id: u32,
    pub title: String,
}

/// A user as the forum shows them.
#[derive(Clone, Debug, PartialEq)]
pub struct ForumUser {
    pub id: u64,
    pub name: String,
    pub forum_avatar: Option<String>,
}

/// A poll in a forum topic.
#[derive(Clone, Debug, PartialEq)]
pub struct Poll {
    pub id: u64,
    pub question: String,
    pub closed: bool,
    pub options: Vec<PollOption>,
}

/// An answer of a poll, with its votes.
#[derive(Clone, Debug, PartialEq)]
pub struct PollOption {
    pub id: u64,
    pub text: String,
    pub votes: u64,
}

} // verus!
