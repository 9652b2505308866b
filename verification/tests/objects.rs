use mal_api::objects::{
    AiringStatus, AnimeRankingType, AnimeSeasonSort, AnimeSort, DayOfWeek, ForumSort, Genre,
    GenreType, MangaRankingType, MangaSort, MediaTypeAnime, MediaTypeManga, Nsfw, Paging,
    PublishingStatus, Rating, ReadStatus, RelationType, Season, SeasonType, Source, Username,
    WatchStatus,
};

#[test]
fn names_on_the_wire() {
    assert_eq!(MangaSort::ListUpdatedAt.as_str(), "list_updated_at");
    assert_eq!(MangaSort::MangaStartDate.as_str(), "manga_start_date");
    assert_eq!(AnimeSort::AnimeId.as_str(), "anime_id");
    assert_eq!(WatchStatus::PlanToWatch.as_str(), "plan_to_watch");
    assert_eq!(WatchStatus::OnHold.as_str(), "on_hold");
    assert_eq!(ReadStatus::PlanToRead.as_str(), "plan_to_read");
    assert_eq!(RelationType::Prequel.as_str(), "prequel");
    assert_eq!(Source::FourKomaManga.as_str(), "4_koma_manga");
    assert_eq!(Source::LightNovel.as_str(), "light_novel");
    assert_eq!(Rating::G.as_str(), "g");
    assert_eq!(Rating::PG13.as_str(), "pg_13");
    assert_eq!(Rating::RPlus.as_str(), "r+");
    assert_eq!(Rating::RX.as_str(), "rx");
    assert_eq!(MediaTypeAnime::TV.as_str(), "tv");
    assert_eq!(MediaTypeManga::OneShot.as_str(), "one_shot");
    assert_eq!(Nsfw::Gray.as_str(), "gray");
    assert_eq!(DayOfWeek::Wednesday.as_str(), "wednesday");
    assert_eq!(SeasonType::Fall.as_str(), "fall");
    assert_eq!(AiringStatus::NotYetAired.as_str(), "not_yet_aired");
    assert_eq!(PublishingStatus::CurrentlyPublishing.as_str(), "currently_publishing");
    assert_eq!(GenreType::SliceOfLife.as_str(), "Slice of Life");
    assert_eq!(GenreType::SciFi.as_str(), "Sci-Fi");
    assert_eq!(GenreType::IdolsFemale.as_str(), "Idols (Female)");
    assert_eq!(GenreType::CGDCT.as_str(), "CGDCT");
    assert_eq!(GenreType::Action.as_str(), "Action");
    assert_eq!(AnimeRankingType::ByPopularity.as_str(), "bypopularity");
    assert_eq!(MangaRankingType::OneShots.as_str(), "oneshots");
    assert_eq!(AnimeSeasonSort::AnimeNumListUsers.as_str(), "anime_num_list_users");
    assert_eq!(ForumSort::Recent.as_str(), "recent");
}

#[test]
fn values_by_name() {
    assert_eq!(MangaSort::from_str("manga_id"), Some(MangaSort::MangaId));
    assert_eq!(MangaSort::from_str("MangaId"), None);
    assert_eq!(MangaSort::from_str(""), None);
    assert_eq!(WatchStatus::from_str("completed"), Some(WatchStatus::Completed));
    assert_eq!(WatchStatus::from_str("completed "), None);
    assert_eq!(Rating::from_str("r+"), Some(Rating::RPlus));
    assert_eq!(Rating::from_str("r"), Some(Rating::R));
    assert_eq!(Rating::from_str("R"), None);
    assert_eq!(Source::from_str("4_koma_manga"), Some(Source::FourKomaManga));
    assert_eq!(GenreType::from_str("Time Travel"), Some(GenreType::TimeTravel));
    assert_eq!(GenreType::from_str("time travel"), None);
    assert_eq!(GenreType::from_str("Shounen"), Some(GenreType::Shounen));
    assert_eq!(ForumSort::from_str("recent"), Some(ForumSort::Recent));
    assert_eq!(SeasonType::from_str("autumn"), None);
}

#[test]
fn every_name_leads_back_to_its_value() {
    let days = [
        DayOfWeek::Sunday,
        DayOfWeek::Monday,
        DayOfWeek::Tuesday,
        DayOfWeek::Wednesday,
        DayOfWeek::Thursday,
        DayOfWeek::Friday,
        DayOfWeek::Saturday,
    ];
    for day in days {
        assert_eq!(DayOfWeek::from_str(day.as_str()), Some(day));
    }
    let rankings = [
        AnimeRankingType::All,
        AnimeRankingType::Airing,
        AnimeRankingType::Upcoming,
        AnimeRankingType::Tv,
        AnimeRankingType::Ova,
        AnimeRankingType::Movie,
        AnimeRankingType::Special,
        AnimeRankingType::ByPopularity,
        AnimeRankingType::Favorite,
    ];
    for ranking in rankings {
        assert_eq!(AnimeRankingType::from_str(ranking.as_str()), Some(ranking));
    }
    let media = [
        MediaTypeManga::Unknown,
        MediaTypeManga::Manga,
        MediaTypeManga::Novel,
        MediaTypeManga::OneShot,
        MediaTypeManga::Doujinshi,
        MediaTypeManga::Manhwa,
        MediaTypeManga::Manhua,
        MediaTypeManga::Oel,
    ];
    for medium in media {
        assert_eq!(MediaTypeManga::from_str(medium.as_str()), Some(medium));
    }
}

#[test]
fn user_names() {
    assert_eq!(Username::Me.to_string(), "@me");
    assert_eq!(Username::User("nagisa".to_string()).to_string(), "nagisa");
    assert!(Username::Me.is_me());
    assert!(!Username::User("@me".to_string()).is_me());
}

#[test]
fn records_hold_their_values() {
    let season = Season { year: 2020, season: SeasonType::Winter };
    assert_eq!(season, Season { year: 2020, season: SeasonType::Winter });
    let genre = Genre { id: 1, name: GenreType::Action };
    assert_eq!(genre.clone(), genre);
    let paging = Paging { previous: None, next: Some("next".to_string()) };
    assert_eq!(paging.next.as_deref(), Some("next"));
}
