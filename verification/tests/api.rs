use mal_api::api::anime::AnimeApi;
use mal_api::api::forum::ForumApi;
use mal_api::api::manga::MangaApi;
use mal_api::api::user::UserApi;
use mal_api::api::user_animelist::UserAnimeListApi;
use mal_api::api::user_mangalist::UserMangaListApi;
use mal_api::api::{cap_u16, cap_u8, get_with_query, path_with_id};
use mal_api::api_request::RequestMethod;
use mal_api::objects::{
    AnimeRankingType, AnimeSeasonSort, AnimeSort, ForumSort, MangaRankingType, MangaSort,
    ReadStatus, SeasonType, Username, WatchStatus,
};
use mal_api::query::{encode_query, join_with_commas, Param};
use mal_api::text::{concat_text, decimal_text, text_eq};

fn names(fields: &[&str]) -> Vec<String> {
    fields.iter().map(|f| f.to_string()).collect()
}

fn pairs(params: &[Param]) -> Vec<(String, String)> {
    params.iter().map(|p| (p.name.clone(), p.value.clone())).collect()
}

fn pair(name: &str, value: &str) -> (String, String) {
    (name.to_string(), value.to_string())
}

#[test]
fn anime_list() {
    let call = AnimeApi::new()
        .get()
        .list()
        .q("one piece")
        .limit(4)
        .offset(2)
        .fields(names(&["id", "title"]))
        .request()
        .unwrap();
    assert_eq!(
        call.url,
        "https://api.myanimelist.net/v2/anime?q=one+piece&limit=4&offset=2&fields=id%2Ctitle"
    );
    assert_eq!(call.method, RequestMethod::Get);
    assert!(!call.is_auth);
    assert!(call.data.is_none());
    assert!(call.form().is_none());
}

#[test]
fn anime_list_without_parameters_keeps_the_question_mark() {
    let call = AnimeApi::new().get().list().request().unwrap();
    assert_eq!(call.url, "https://api.myanimelist.net/v2/anime?");
    // the limit of the list is passed on as it is
    let call = AnimeApi::new().get().list().limit(100_000).request().unwrap();
    assert_eq!(call.url, "https://api.myanimelist.net/v2/anime?limit=100000");
}

#[test]
fn anime_details() {
    let builder = AnimeApi::new().get().details();
    assert!(!builder.is_ready());
    let builder = builder.anime_id(30230).fields(names(&["synopsis"]));
    assert!(builder.is_ready());
    let call = builder.request().unwrap();
    assert_eq!(call.url, "https://api.myanimelist.net/v2/anime/30230?fields=synopsis");
    assert!(!call.is_auth);
}

#[test]
fn anime_ranking_holds_the_limit_at_500() {
    let builder = AnimeApi::new().get().ranking().limit(9999);
    assert!(!builder.is_ready());
    let call = builder.ranking_type(AnimeRankingType::ByPopularity).offset(7).request().unwrap();
    assert_eq!(
        call.url,
        "https://api.myanimelist.net/v2/anime/ranking?ranking_type=bypopularity&limit=500&offset=7"
    );
    let call = AnimeApi::new()
        .get()
        .ranking()
        .ranking_type(AnimeRankingType::Tv)
        .limit(500)
        .request()
        .unwrap();
    assert_eq!(call.url, "https://api.myanimelist.net/v2/anime/ranking?ranking_type=tv&limit=500");
}

#[test]
fn anime_season() {
    let builder = AnimeApi::new().get().seasonal().year(2017);
    assert!(!builder.is_ready());
    let builder = builder.season(SeasonType::Summer);
    assert!(builder.is_ready());
    let call = builder.sort(AnimeSeasonSort::AnimeScore).limit(501).request().unwrap();
    assert_eq!(
        call.url,
        "https://api.myanimelist.net/v2/anime/season/2017/summer?sort=anime_score&limit=500"
    );
    assert!(!call.is_auth);
}

#[test]
fn anime_suggestions_are_the_users() {
    let call = AnimeApi::new().get().suggested().limit(101).offset(0).request().unwrap();
    assert_eq!(call.url, "https://api.myanimelist.net/v2/anime/suggestions?limit=100&offset=0");
    assert!(call.is_auth);
}

#[test]
fn manga_endpoints() {
    let call = MangaApi::new()
        .get()
        .list()
        .q("berserk & co")
        .limit(1000)
        .offset(3)
        .nsfw(true)
        .request()
        .unwrap();
    assert_eq!(
        call.url,
        "https://api.myanimelist.net/v2/manga?q=berserk+%26+co&limit=1000&offset=3&nsfw=true"
    );
    let call = MangaApi::new().get().details().manga_id(2).request().unwrap();
    assert_eq!(call.url, "https://api.myanimelist.net/v2/manga/2?");
    let call = MangaApi::new()
        .get()
        .ranking()
        .ranking_type(MangaRankingType::OneShots)
        .limit(600)
        .nsfw(false)
        .fields(names(&["a", "b", "c"]))
        .request()
        .unwrap();
    assert_eq!(
        call.url,
        "https://api.myanimelist.net/v2/manga/ranking?ranking_type=oneshots&limit=500&fields=a%2Cb%2Cc&nsfw=false"
    );
    assert!(!MangaApi::new().get().ranking().is_ready());
    assert!(!MangaApi::new().get().details().is_ready());
}

#[test]
fn user_information() {
    let call = UserApi::new().get().information().fields(names(&["anime_statistics"])).request();
    let call = call.unwrap();
    assert_eq!(call.url, "https://api.myanimelist.net/v2/users/@me?fields=anime_statistics");
    assert!(call.is_auth);
    assert_eq!(call.method, RequestMethod::Get);
}

#[test]
fn own_anime_list_is_read_on_behalf_of_the_user() {
    let call = UserAnimeListApi::new()
        .get()
        .user_name(Username::Me)
        .status(WatchStatus::Watching)
        .sort(AnimeSort::ListScore)
        .limit(5000)
        .nsfw(true)
        .request()
        .unwrap();
    assert_eq!(
        call.url,
        "https://api.myanimelist.net/v2/users/@me/animelist?status=watching&sort=list_score&limit=1000&nsfw=true"
    );
    assert!(call.is_auth);
}

#[test]
fn another_users_list_is_read_with_the_client_id() {
    let builder = UserAnimeListApi::new().get();
    assert!(!builder.is_ready());
    let call = builder.user_name(Username::User("nagisa".to_string())).offset(10).request();
    let call = call.unwrap();
    assert_eq!(call.url, "https://api.myanimelist.net/v2/users/nagisa/animelist?offset=10");
    assert!(!call.is_auth);
    let call = UserMangaListApi::new()
        .get()
        .user_name(Username::User("nagisa".to_string()))
        .status(ReadStatus::PlanToRead)
        .sort(MangaSort::MangaTitle)
        .request()
        .unwrap();
    assert_eq!(
        call.url,
        "https://api.myanimelist.net/v2/users/nagisa/mangalist?status=plan_to_read&sort=manga_title"
    );
    assert!(!call.is_auth);
    let call = UserMangaListApi::new().get().user_name(Username::Me).request().unwrap();
    assert_eq!(call.url, "https://api.myanimelist.net/v2/users/@me/mangalist?");
    assert!(call.is_auth);
}

#[test]
fn anime_list_entry_is_written_as_a_form() {
    let builder = UserAnimeListApi::new()
        .put()
        .status(WatchStatus::Completed)
        .is_rewatching(false)
        .score(11)
        .num_watched_episodes(24)
        .priority(3)
        .num_times_rewatched(1)
        .rewatch_value(9)
        .tags("a b")
        .comments("c&d");
    assert!(!builder.is_ready());
    let builder = builder.anime_id(21);
    assert!(builder.is_ready());
    let call = builder.request();
    assert_eq!(call.url, "https://api.myanimelist.net/v2/anime/21/my_list_status");
    assert_eq!(call.method, RequestMethod::Put);
    assert!(call.is_auth);
    let expected = vec![
        pair("status", "completed"),
        pair("is_rewatching", "false"),
        pair("score", "10"),
        pair("num_watched_episodes", "24"),
        pair("priority", "2"),
        pair("num_times_rewatched", "1"),
        pair("rewatch_value", "5"),
        pair("tags", "a b"),
        pair("comments", "c&d"),
    ];
    assert_eq!(pairs(call.form().unwrap()), expected);
    assert_eq!(pairs(&builder.params()), expected);
}

#[test]
fn only_what_is_set_is_written() {
    let call = UserAnimeListApi::new().put().anime_id(5).score(7).request();
    assert_eq!(pairs(call.form().unwrap()), vec![pair("score", "7")]);
    let call = UserAnimeListApi::new().put().anime_id(5).request();
    assert_eq!(pairs(call.form().unwrap()), vec![]);
    let call = UserMangaListApi::new()
        .put()
        .manga_id(8)
        .status(ReadStatus::Reading)
        .is_rereading(true)
        .score(10)
        .num_volumes_read(3)
        .num_chapters_read(30)
        .priority(2)
        .num_times_reread(0)
        .reread_value(5)
        .tags("t")
        .comments("")
        .request();
    assert_eq!(call.url, "https://api.myanimelist.net/v2/manga/8/my_list_status");
    assert_eq!(
        pairs(call.form().unwrap()),
        vec![
            pair("status", "reading"),
            pair("is_rereading", "true"),
            pair("score", "10"),
            pair("num_volumes_read", "3"),
            pair("num_chapters_read", "30"),
            pair("priority", "2"),
            pair("num_times_reread", "0"),
            pair("reread_value", "5"),
            pair("tags", "t"),
            pair("comments", ""),
        ]
    );
}

#[test]
fn list_entries_are_deleted_on_behalf_of_the_user() {
    let builder = UserAnimeListApi::new().delete();
    assert!(!builder.is_ready());
    let call = builder.anime_id(17).request();
    assert_eq!(call.url, "https://api.myanimelist.net/v2/anime/17/my_list_status");
    assert_eq!(call.method, RequestMethod::Delete);
    assert!(call.is_auth);
    assert!(call.form().is_none());
    let call = UserMangaListApi::new().delete().manga_id(u64::MAX).request();
    assert_eq!(
        call.url,
        "https://api.myanimelist.net/v2/manga/18446744073709551615/my_list_status"
    );
    assert_eq!(call.method, RequestMethod::Delete);
}

#[test]
fn forum_endpoints() {
    let call = ForumApi::new().get().boards().request();
    assert_eq!(call.url, "https://api.myanimelist.net/v2/forum/boards");
    assert_eq!(call.method, RequestMethod::Get);
    assert!(!call.is_auth);
    let builder = ForumApi::new().get().topic_detail().limit(200).offset(1);
    assert!(!builder.is_ready());
    let call = builder.topic_id(481).request().unwrap();
    assert_eq!(call.url, "https://api.myanimelist.net/v2/forum/topic/481?limit=100&offset=1");
    let call = ForumApi::new()
        .get()
        .topics()
        .user_name("u")
        .topic_user_name("t")
        .q("love live")
        .sort(ForumSort::Recent)
        .offset(4)
        .limit(101)
        .subboard_id(2)
        .board_id(1)
        .request()
        .unwrap();
    assert_eq!(
        call.url,
        "https://api.myanimelist.net/v2/forum/topics?board_id=1&subboard_id=2&limit=100&offset=4&sort=recent&q=love+live&topic_user_name=t&user_name=u"
    );
}

#[test]
fn a_later_value_replaces_an_earlier_one() {
    let call = AnimeApi::new().get().list().q("a").q("b").limit(1).limit(2).request().unwrap();
    assert_eq!(call.url, "https://api.myanimelist.net/v2/anime?q=b&limit=2");
}

#[test]
fn field_names_are_joined_with_commas() {
    let call = AnimeApi::new().get().list().fields(names(&[])).request().unwrap();
    assert_eq!(call.url, "https://api.myanimelist.net/v2/anime?fields=");
    let call = AnimeApi::new().get().list().fields(names(&["id"])).request().unwrap();
    assert_eq!(call.url, "https://api.myanimelist.net/v2/anime?fields=id");
    let call = AnimeApi::new().get().list().fields(names(&["id", "", "x y"])).request().unwrap();
    assert_eq!(call.url, "https://api.myanimelist.net/v2/anime?fields=id%2C%2Cx+y");
}

#[test]
fn query_strings_are_percent_encoded() {
    let params = vec![
        Param { name: "a b".to_string(), value: "c&d=é".to_string() },
        Param { name: "k".to_string(), value: "-._*~".to_string() },
        Param { name: "empty".to_string(), value: String::new() },
    ];
    assert_eq!(encode_query(&params).unwrap(), "a+b=c%26d%3D%C3%A9&k=-._*%7E&empty=");
    assert_eq!(encode_query(&Vec::new()).unwrap(), "");
    let call = get_with_query("http://h/p", &params[2..].to_vec(), true).unwrap();
    assert_eq!(call.url, "http://h/p?empty=");
    assert!(call.is_auth);
}

#[test]
fn numbers_in_decimal() {
    assert_eq!(decimal_text(0), "0");
    assert_eq!(decimal_text(7), "7");
    assert_eq!(decimal_text(10), "10");
    assert_eq!(decimal_text(1234567890), "1234567890");
    assert_eq!(decimal_text(u64::MAX), u64::MAX.to_string());
    assert_eq!(path_with_id("a/", 42, "/b"), "a/42/b");
}

#[test]
fn texts() {
    assert!(text_eq("", ""));
    assert!(text_eq("héllo", "héllo"));
    assert!(!text_eq("hello", "hellp"));
    assert!(!text_eq("hello", "hell"));
    assert!(!text_eq("Hello", "hello"));
    assert_eq!(concat_text("ab", "cd"), "abcd");
    assert_eq!(concat_text("", ""), "");
}

#[test]
fn caps() {
    assert_eq!(cap_u16(0, 500), 0);
    assert_eq!(cap_u16(500, 500), 500);
    assert_eq!(cap_u16(501, 500), 500);
    assert_eq!(cap_u8(255, 10), 10);
    assert_eq!(cap_u8(3, 10), 3);
}

#[test]
fn joining_with_commas() {
    assert_eq!(join_with_commas(&names(&[])), "");
    assert_eq!(join_with_commas(&names(&["id"])), "id");
    assert_eq!(join_with_commas(&names(&["id", "title"])), "id,title");
    assert_eq!(join_with_commas(&names(&["", ""])), ",");
    assert_eq!(join_with_commas(&names(&["a", "", "b,c", "é"])), "a,,b,c,é");
}
