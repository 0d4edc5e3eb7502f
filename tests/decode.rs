use rust_anilist::json::{parse_integer, Json};
use rust_anilist::models::{
    unwrap_characters, unwrap_relations, Anime, Character, CharacterRole, Color, Format, Gender,
    Media, MediaType, RelationType, Season, Source, Status,
};
use rust_anilist::queries::GET_ANIME;
use rust_anilist::response::api_error;
use rust_anilist::{Client, Error};

fn s(v: &str) -> Json {
    Json::Str(v.to_string())
}

fn n(v: &str) -> Json {
    Json::Number(v.to_string())
}

fn obj(members: Vec<(&str, Json)>) -> Json {
    Json::Object(members.into_iter().map(|(k, v)| (k.to_string(), v)).collect())
}

fn character_node(id: &str, full: &str) -> Json {
    obj(vec![
        ("id", n(id)),
        ("name", obj(vec![("first", s("Edward")), ("full", s(full)), ("alternative", Json::Array(vec![s("Ed")]))])),
        ("image", obj(vec![("large", s("https://img/l.png")), ("medium", s("https://img/m.png"))])),
        ("gender", s("Male")),
        ("siteUrl", s("https://anilist.co/character/11")),
    ])
}

fn anime_object(id: &str, description: Option<&str>) -> Json {
    let mut members = vec![
        ("id", n(id)),
        ("idMal", n("20")),
        ("title", obj(vec![("romaji", s("Naruto")), ("native", s("ナルト")), ("english", Json::Null)])),
        ("format", s("TV")),
        ("status", s("FINISHED")),
        ("season", s("FALL")),
        ("seasonYear", n("2002")),
        ("episodes", n("220")),
        ("duration", n("23")),
        ("source", s("MANGA")),
        ("coverImage", obj(vec![("extraLarge", s("https://img/xl.jpg")), ("medium", s("https://img/m.jpg")), ("color", s("#e4a15d"))])),
        ("bannerImage", s("https://img/banner.jpg")),
        ("genres", Json::Array(vec![s("Action"), s("Adventure")])),
        ("averageScore", n("79")),
        ("popularity", n("600000")),
        ("isAdult", Json::Bool(false)),
        ("startDate", obj(vec![("year", n("2002")), ("month", n("10")), ("day", n("3"))])),
        ("endDate", obj(vec![("year", Json::Null), ("month", Json::Null), ("day", Json::Null)])),
        ("tags", Json::Array(vec![obj(vec![("id", n("5")), ("name", s("Ninja")), ("rank", n("96")), ("isAdult", Json::Bool(false))])])),
        ("nextAiringEpisode", Json::Null),
        ("siteUrl", s("https://anilist.co/anime/20")),
        ("characters", obj(vec![("edges", Json::Array(vec![obj(vec![("role", s("MAIN")), ("node", character_node("17", "Naruto Uzumaki"))])]))])),
        ("relations", obj(vec![("edges", Json::Array(vec![obj(vec![
            ("id", n("99")),
            ("relationType", s("SEQUEL")),
            ("isMainStudio", Json::Bool(false)),
            ("node", obj(vec![("id", n("1735")), ("type", s("ANIME")), ("title", obj(vec![("romaji", s("Naruto: Shippuuden")), ("native", s("ナルト 疾風伝"))]))])),
        ])]))])),
    ];
    if let Some(d) = description {
        members.push(("description", s(d)));
    }
    obj(members)
}

fn envelope(key: &str, record: Json) -> Json {
    obj(vec![("data", obj(vec![(key, record)]))])
}

#[test]
fn integers_are_read_from_number_text() {
    assert_eq!(parse_integer("20"), Some(20));
    assert_eq!(parse_integer("-7"), Some(-7));
    assert_eq!(parse_integer("18446744073709551615"), Some(18446744073709551615));
    assert_eq!(parse_integer("18446744073709551616"), None);
    assert_eq!(parse_integer("1.5"), None);
    assert_eq!(parse_integer("1e3"), None);
    assert_eq!(parse_integer("-"), None);
    assert_eq!(parse_integer(""), None);
}

#[test]
fn get_anime_decodes_a_full_record() {
    let client = Client::with_token("tok");
    let env = envelope("Media", anime_object("20", Some("A ninja story.")));
    let anime = client.anime_from_response(env).unwrap();
    assert_eq!(anime.id, 20);
    assert!(anime.is_full_loaded());
    assert_eq!(anime.id_mal, Some(20));
    assert_eq!(anime.title.romaji(), "Naruto");
    assert_eq!(anime.title.english(), "ナルト");
    assert_eq!(anime.format, Format::Tv);
    assert_eq!(anime.status, Status::Finished);
    assert_eq!(anime.season, Some(Season::Fall));
    assert_eq!(anime.season_year, Some(2002));
    assert_eq!(anime.episodes, Some(220));
    assert_eq!(anime.duration, Some(23));
    assert_eq!(anime.source, Some(Source::Manga));
    assert_eq!(anime.description, "A ninja story.");
    assert_eq!(anime.cover.largest(), Some("https://img/xl.jpg"));
    assert_eq!(anime.cover.color, Some(Color::Hex("#e4a15d".to_string())));
    assert_eq!(anime.banner, Some("https://img/banner.jpg".to_string()));
    assert_eq!(anime.genres, Some(vec!["Action".to_string(), "Adventure".to_string()]));
    assert_eq!(anime.average_score, Some(79));
    assert_eq!(anime.popularity, Some(600000));
    assert!(!anime.is_adult);
    assert_eq!(anime.start_date.unwrap().format("{yyyy}-{mm}-{dd}"), "2002-10-03");
    assert!(!anime.end_date.unwrap().is_valid());
    assert_eq!(anime.tags.as_ref().unwrap()[0].name, "Ninja");
    assert_eq!(anime.tags.as_ref().unwrap()[0].rank, 96);
    assert!(anime.next_airing_episode.is_none());
    assert_eq!(anime.url, "https://anilist.co/anime/20");
    assert_eq!(anime.client, client);
}

#[test]
fn null_members_are_unset() {
    let client = Client::default();
    let env = envelope("Media", obj(vec![("id", n("1")), ("duration", Json::Null), ("description", Json::Null), ("title", Json::Null), ("genres", Json::Null)]));
    let anime = client.anime_from_response(env).unwrap();
    assert_eq!(anime.duration, None);
    assert_eq!(anime.description, "");
    assert!(anime.title.is_empty());
    assert_eq!(anime.genres, None);
}

#[test]
fn mistyped_members_are_decode_errors() {
    let client = Client::default();
    let bad = |member: (&str, Json)| client.anime_from_response(envelope("Media", obj(vec![("id", n("1")), member]))).unwrap_err();
    assert_eq!(bad(("description", Json::Bool(true))), Error::DecodeError("description".to_string()));
    assert_eq!(bad(("duration", n("300"))), Error::DecodeError("duration".to_string()));
    assert_eq!(bad(("averageScore", n("-1"))), Error::DecodeError("averageScore".to_string()));
    assert_eq!(bad(("episodes", n("12.5"))), Error::DecodeError("episodes".to_string()));
    assert_eq!(bad(("format", n("3"))), Error::DecodeError("format".to_string()));
    assert_eq!(bad(("genres", Json::Array(vec![n("1")]))), Error::DecodeError("genres".to_string()));
    assert_eq!(bad(("title", s("Naruto"))), Error::DecodeError("title".to_string()));
    assert_eq!(bad(("title", obj(vec![("native", Json::Bool(false))]))), Error::DecodeError("title".to_string()));
    assert_eq!(bad(("tags", Json::Array(vec![Json::Null]))), Error::DecodeError("tags".to_string()));
    assert_eq!(bad(("startDate", obj(vec![("month", s("May"))]))), Error::DecodeError("startDate".to_string()));
    assert_eq!(bad(("isAdult", n("0"))), Error::DecodeError("isAdult".to_string()));
}

#[test]
fn mistyped_edge_nodes_are_skipped() {
    let client = Client::default();
    let mut bad_node = character_node("9", "Bad");
    if let Json::Object(members) = &mut bad_node {
        members.push(("age".to_string(), n("17")));
    }
    let doc = obj(vec![("edges", Json::Array(vec![
        obj(vec![("node", bad_node), ("role", s("MAIN"))]),
        obj(vec![("node", character_node("10", "Good")), ("role", s("MAIN"))]),
    ]))]);
    let characters = unwrap_characters(&doc, &client);
    assert_eq!(characters.len(), 1);
    assert_eq!(characters[0].id, 10);
    let relations = obj(vec![("edges", Json::Array(vec![obj(vec![("id", s("x"))]), obj(vec![("id", n("4"))])]))]);
    let relations = unwrap_relations(&relations, &client);
    assert_eq!(relations.len(), 1);
    assert_eq!(relations[0].id, 4);
}

#[test]
fn decoding_twice_gives_equal_records() {
    let client = Client::default();
    let first = client.anime_from_response(envelope("Media", anime_object("20", Some("x")))).unwrap();
    let second = client.anime_from_response(envelope("Media", anime_object("20", Some("x")))).unwrap();
    assert_eq!(first, second);
}

#[test]
fn unknown_enum_values_do_not_fail_decoding() {
    let client = Client::default();
    let record = obj(vec![("id", n("3")), ("format", s("HOLOGRAM")), ("status", s("PAUSED_FOREVER")), ("season", s("MONSOON")), ("source", s("DREAM"))]);
    let anime = client.anime_from_response(envelope("Media", record)).unwrap();
    assert_eq!(anime.format, Format::Tv);
    assert_eq!(anime.status, Status::NotYetReleased);
    assert_eq!(anime.season, Some(Season::Winter));
    assert_eq!(anime.source, Some(Source::Other));
}

#[test]
fn missing_id_is_a_decode_error() {
    let client = Client::default();
    let env = envelope("Media", obj(vec![("title", obj(vec![("native", s("x"))]))]));
    assert_eq!(client.anime_from_response(env).unwrap_err(), Error::DecodeError("id".to_string()));
    let env = envelope("Media", obj(vec![("id", s("20"))]));
    assert_eq!(client.anime_from_response(env).unwrap_err(), Error::DecodeError("id".to_string()));
    assert_eq!(client.anime_from_response(Json::Null).unwrap_err(), Error::DecodeError("id".to_string()));
}

#[test]
fn reported_errors_become_api_errors() {
    let client = Client::default();
    let env = obj(vec![
        ("errors", Json::Array(vec![obj(vec![("message", s("Not Found.")), ("status", n("404"))])])),
        ("data", obj(vec![("Media", Json::Null)])),
    ]);
    assert_eq!(api_error(&env), Some("Not Found.".to_string()));
    assert_eq!(client.anime_from_response(env).unwrap_err(), Error::ApiError("Not Found.".to_string()));
    let empty = obj(vec![("errors", Json::Array(vec![]))]);
    assert_eq!(api_error(&empty), None);
}

#[test]
fn characters_unwrap_with_their_role() {
    let client = Client::default();
    let anime = client.anime_from_response(envelope("Media", anime_object("20", None))).unwrap();
    let characters = anime.characters();
    assert_eq!(characters.len(), 1);
    assert_eq!(characters[0].id, 17);
    assert_eq!(characters[0].name.full(), "Naruto Uzumaki");
    assert_eq!(characters[0].role, Some(CharacterRole::Main));
    assert_eq!(characters[0].gender, Some(Gender::Male));
    assert!(!characters[0].is_full_loaded);
}

#[test]
fn single_edge_unwraps_to_its_character() {
    let client = Client::default();
    let doc = obj(vec![("edges", Json::Array(vec![obj(vec![("node", character_node("11", "Edward Elric")), ("role", s("MAIN"))])]))]);
    let characters = unwrap_characters(&doc, &client);
    assert_eq!(characters.len(), 1);
    assert_eq!(characters[0].id, 11);
    assert_eq!(characters[0].name.full, "Edward Elric");
    assert_eq!(characters[0].name.alternative, vec!["Ed".to_string()]);
    assert_eq!(characters[0].image.largest(), "https://img/l.png");
    assert_eq!(characters[0].url, "https://anilist.co/character/11");
    assert_eq!(characters[0].role, Some(CharacterRole::Main));
}

#[test]
fn empty_or_missing_edges_unwrap_to_nothing() {
    let client = Client::default();
    assert!(unwrap_characters(&obj(vec![("edges", Json::Array(vec![]))]), &client).is_empty());
    assert!(unwrap_characters(&obj(vec![]), &client).is_empty());
    assert!(unwrap_characters(&Json::Null, &client).is_empty());
    assert!(unwrap_relations(&obj(vec![("edges", s("oops"))]), &client).is_empty());
}

#[test]
fn malformed_edges_are_skipped_one_by_one() {
    let client = Client::default();
    let doc = obj(vec![("edges", Json::Array(vec![
        n("1"),
        obj(vec![("role", s("MAIN"))]),
        obj(vec![("node", obj(vec![("name", obj(vec![]))])), ("role", s("MAIN"))]),
        obj(vec![("node", character_node("5", "Al")), ("role", s("SUPPORTING"))]),
        obj(vec![("node", character_node("6", "Winry"))]),
    ]))]);
    let characters = unwrap_characters(&doc, &client);
    assert_eq!(characters.len(), 2);
    assert_eq!(characters[0].id, 5);
    assert_eq!(characters[0].role, Some(CharacterRole::Supporting));
    assert_eq!(characters[1].id, 6);
    assert_eq!(characters[1].role, None);
}

#[test]
fn relations_resolve_their_media_kind() {
    let client = Client::default();
    let anime = client.anime_from_response(envelope("Media", anime_object("20", None))).unwrap();
    let relations = anime.relations();
    assert_eq!(relations.len(), 1);
    assert_eq!(relations[0].id, 99);
    assert_eq!(relations[0].relation_type, RelationType::Sequel);
    assert_eq!(relations[0].media().id(), 1735);
    assert_eq!(relations[0].media().title(), "Naruto: Shippuuden");
    match relations[0].media() {
        Media::Anime(a) => assert!(!a.is_full_loaded()),
        _ => panic!("expected an anime"),
    }
    let doc = obj(vec![("edges", Json::Array(vec![
        obj(vec![("node", obj(vec![("id", n("7")), ("type", s("MANGA"))])), ("relationType", s("SOURCE"))]),
        obj(vec![("node", obj(vec![("id", n("8")), ("type", s("NOVEL"))]))]),
        obj(vec![("node", obj(vec![("type", s("ANIME"))]))]),
    ]))]);
    let relations = unwrap_relations(&doc, &client);
    assert_eq!(relations.len(), 3);
    assert!(matches!(relations[0].media(), Media::Manga(_)));
    assert_eq!(relations[0].relation_type, RelationType::Source);
    assert!(matches!(relations[1].media(), Media::Unknown));
    assert_eq!(relations[1].relation_type, RelationType::Other);
    assert!(matches!(relations[2].media(), Media::Unknown));
    assert_eq!(relations[2].media().title(), "Unknown");
    assert_eq!(relations[2].media().id(), 0);
}

#[test]
fn search_results_are_partial_and_load_fully() {
    let client = Client::with_token("secret");
    let page = obj(vec![("data", obj(vec![("Page", obj(vec![("media", Json::Array(vec![
        obj(vec![("id", n("20")), ("title", obj(vec![("romaji", s("Naruto")), ("native", s("ナルト"))])), ("format", s("TV"))]),
        obj(vec![("title", obj(vec![]))]),
    ]))]))]))]);
    let results = client.anime_page_from_response(&page).unwrap();
    assert_eq!(results.len(), 1);
    let partial = &results[0];
    assert!(!partial.is_full_loaded());
    assert_eq!(partial.description, "");

    let req = partial.load_full_request();
    let body: serde_json::Value = serde_json::from_str(&req.body).unwrap();
    assert_eq!(body["query"], GET_ANIME);
    assert_eq!(body["variables"]["id"], 20);
    assert_eq!(req.authorization, Some("Bearer secret".to_string()));

    let answer = envelope("Media", anime_object("20", Some("Full description.")));
    let full = partial.load_full_from_response(answer).unwrap();
    assert_eq!(full.id, partial.id);
    assert!(full.is_full_loaded());
    assert_eq!(full.description, "Full description.");
    assert!(!partial.is_full_loaded());

    let other = envelope("Media", anime_object("21", Some("x")));
    assert_eq!(partial.load_full_from_response(other).unwrap_err(), Error::DecodeError("id".to_string()));
}

#[test]
fn search_page_without_results_is_none() {
    let client = Client::default();
    assert!(client.anime_page_from_response(&obj(vec![("data", Json::Null)])).is_none());
    let users = obj(vec![("data", obj(vec![("Page", obj(vec![("users", Json::Array(vec![obj(vec![("id", n("5375822")), ("name", s("andrielfr"))])]))]))]))]);
    let found = client.user_page_from_response(&users).unwrap();
    assert_eq!(found[0].id, 5375822);
    assert_eq!(found[0].name, "andrielfr");
}

#[test]
fn user_character_and_person_responses() {
    let client = Client::default();
    let user = obj(vec![
        ("id", n("5375822")),
        ("name", s("andrielfr")),
        ("avatar", obj(vec![("large", s("https://img/a.png"))])),
        ("options", obj(vec![("titleLanguage", s("ENGLISH")), ("profileColor", s("blue")), ("notificationOptions", Json::Array(vec![obj(vec![("type", s("AIRING")), ("enabled", Json::Bool(true))])]))])),
        ("statistics", obj(vec![("anime", obj(vec![("count", n("12")), ("statuses", Json::Array(vec![obj(vec![("status", s("COMPLETED")), ("mediaIds", Json::Array(vec![n("1"), n("2")]))])]))]))])),
    ]);
    let u = client.user_from_response(envelope("User", user)).unwrap();
    assert_eq!(u.id, 5375822);
    assert!(u.is_full_loaded());
    assert_eq!(u.avatar.as_ref().unwrap().largest(), "https://img/a.png");
    let options = u.options.as_ref().unwrap();
    assert_eq!(options.profile_color, Color::Blue);
    assert_eq!(options.notifications_options.as_ref().unwrap().len(), 1);
    assert_eq!(u.statistics.anime.count, 12);
    assert_eq!(u.statistics.anime.statuses[0].status, Status::Completed);
    assert_eq!(u.statistics.anime.statuses[0].media_ids, vec![1, 2]);
    assert!(u.favourites.anime.is_empty());

    let character = client.character_from_response(&envelope("Character", character_node("11", "Edward Elric"))).unwrap();
    assert_eq!(character.id, 11);
    assert!(character.is_full_loaded);
    assert_eq!(character.role, None);

    let person = client.person_from_response(&envelope("Staff", obj(vec![("id", n("95061")), ("languageV2", s("Japanese")), ("age", n("41"))]))).unwrap();
    assert_eq!(person.id, 95061);
    assert_eq!(person.age, Some(41));
    assert!(person.is_full_loaded);
    assert!(client.person_from_response(&Json::Null).is_err());
}

#[test]
fn media_wraps_anime_and_manga() {
    let client = Client::default();
    let anime: Anime = client.anime_from_response(envelope("Media", anime_object("20", None))).unwrap();
    let media = Media::from(anime);
    assert_eq!(media.id(), 20);
    assert_eq!(media.format(), Some(&Format::Tv));
    assert!(Media::default().format().is_none());
    let _unused: Option<Character> = None;
    assert_eq!(MediaType::default(), MediaType::Unknown);
}
