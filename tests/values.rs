use std::time::Duration;

use rust_anilist::json::Json;
use rust_anilist::models::{
    AiringSchedule, Color, Language, Link, LinkType, NotificationOption, NotificationType, Studio,
    Tag, Title,
};
use rust_anilist::{Client, Error};

fn s(v: &str) -> Json {
    Json::Str(v.to_string())
}

fn n(v: &str) -> Json {
    Json::Number(v.to_string())
}

fn obj(members: Vec<(&str, Json)>) -> Json {
    Json::Object(members.into_iter().map(|(k, v)| (k.to_string(), v)).collect())
}

#[test]
fn cloned_client_keeps_its_configuration() {
    let client = Client::with_token("abc").timeout(Duration::from_secs(5));
    let copy = client.clone();
    assert_eq!(copy, client);
    assert_eq!(client.duplicate(), client);
}

#[test]
fn links_decode_type_language_and_color() {
    let j = obj(vec![
        ("id", n("3")),
        ("url", s("https://crunchyroll.com/naruto")),
        ("site", s("Crunchyroll")),
        ("type", s("STREAMING")),
        ("language", s("English")),
        ("color", s("#F88D3E")),
        ("isDisabled", Json::Bool(false)),
    ]);
    let link = Link::from_json(&j).unwrap();
    assert_eq!(link.id, Some(3));
    assert_eq!(link.site, Some("Crunchyroll".to_string()));
    assert_eq!(link.link_type, Some(LinkType::Streaming));
    assert_eq!(link.language, Some(Language::English));
    assert_eq!(link.color, Some(Color::Hex("#F88D3E".to_string())));
    assert_eq!(link.is_disabled, Some(false));
    assert_eq!(link.notes, None);
}

#[test]
fn airing_schedule_and_studio_decode() {
    let a = AiringSchedule::from_json(&obj(vec![("id", n("1")), ("airingAt", n("1700000000")), ("timeUntilAiring", n("3600")), ("episode", n("12"))])).unwrap();
    assert_eq!(a, AiringSchedule { id: 1, at: 1700000000, time_until: 3600, episode: 12 });
    let studio = Studio::from_json(&obj(vec![("id", n("18")), ("name", s("Toei Animation")), ("isAnimationStudio", Json::Bool(true)), ("siteUrl", s("https://anilist.co/studio/18"))])).unwrap();
    assert_eq!(studio.id, 18);
    assert_eq!(studio.name, "Toei Animation");
    assert!(studio.is_animation_studio);
    assert_eq!(studio.favourites, 0);
    assert_eq!(studio.is_favourite, None);
}

#[test]
fn mistyped_value_members_are_decode_errors() {
    assert_eq!(Tag::from_json(&obj(vec![("id", s("7"))])), Err(Error::DecodeError("id".to_string())));
    assert_eq!(Tag::from_json(&obj(vec![("name", n("5"))])), Err(Error::DecodeError("name".to_string())));
    assert_eq!(Tag::from_json(&obj(vec![("isAdult", s("yes"))])), Err(Error::DecodeError("isAdult".to_string())));
    assert!(Title::from_json(&s("not an object")).is_err());
    let tag = Tag::from_json(&obj(vec![("id", Json::Null), ("userId", Json::Null)])).unwrap();
    assert_eq!(tag.id, 0);
    assert_eq!(tag.name, "");
    assert!(!tag.is_adult);
    assert_eq!(tag.user_id, None);
    assert!(Title::from_json(&Json::Null).unwrap().is_empty());
}

#[test]
fn first_of_duplicate_members_is_read() {
    let j = obj(vec![("native", s("first")), ("native", s("second")), ("userPreferred", s("pref"))]);
    let title = Title::from_json(&j).unwrap();
    assert_eq!(title.native(), "first");
    assert_eq!(title.user_preferred(), "pref");
}

#[test]
fn notification_options_decode_their_type() {
    let o = NotificationOption::from_json(&obj(vec![("type", s("AIRING")), ("enabled", Json::Bool(true))])).unwrap();
    assert_eq!(o.notification_type, NotificationType::Airing);
    assert!(o.enabled);
    let unknown = NotificationOption::from_json(&obj(vec![("type", s("SOMETHING_ELSE"))])).unwrap();
    assert_eq!(unknown.notification_type, NotificationType::ActivityMessage);
    assert!(!unknown.enabled);
}
