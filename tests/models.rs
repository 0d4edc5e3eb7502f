use chrono::Datelike;

use rust_anilist::models::{
    CharacterRole, Color, Cover, Date, Format, Gender, Image, Language, LinkType, Name,
    NotificationType, RelationType, Season, Source, Status, Title, UserStaffNameLanguage,
    UserTitleLanguage,
};

#[test]
fn test_hex_with_hex_color() {
    let color = Color::Hex("#FF5733".to_string());

    assert_eq!(color.hex(), Some("#FF5733"));
}

#[test]
fn test_hex_with_predefined_color() {
    let color = Color::Blue;

    assert_eq!(color.hex(), None);
}

#[test]
fn test_from_str_predefined_colors() {
    assert_eq!(Color::from("blue"), Color::Blue);
    assert_eq!(Color::from("PURPLE"), Color::Purple);
    assert_eq!(Color::from("Pink"), Color::Pink);
    assert_eq!(Color::from("orange"), Color::Orange);
    assert_eq!(Color::from("RED"), Color::Red);
    assert_eq!(Color::from("green"), Color::Green);
    assert_eq!(Color::from("gray"), Color::Gray);
}

#[test]
fn test_from_str_hex_color() {
    assert_eq!(Color::from("#FF5733"), Color::Hex("#FF5733".to_string()));
}

#[test]
fn test_from_string_predefined_colors() {
    assert_eq!(Color::from("blue".to_string()), Color::Blue);
    assert_eq!(Color::from("PURPLE".to_string()), Color::Purple);
    assert_eq!(Color::from("Pink".to_string()), Color::Pink);
    assert_eq!(Color::from("orange".to_string()), Color::Orange);
    assert_eq!(Color::from("RED".to_string()), Color::Red);
    assert_eq!(Color::from("green".to_string()), Color::Green);
    assert_eq!(Color::from("gray".to_string()), Color::Gray);
}

#[test]
fn test_from_string_hex_color() {
    assert_eq!(
        Color::from("#FF5733".to_string()),
        Color::Hex("#FF5733".to_string())
    );
}

#[test]
fn color_names_are_trimmed_and_labels_shown() {
    assert_eq!(Color::from("  green \n"), Color::Green);
    assert_eq!(Color::from(" #abc "), Color::Hex(" #abc ".to_string()));
    assert_eq!(Color::Gray.label(), "Gray");
    assert_eq!(Color::Hex("#123456".to_string()).label(), "#123456");
    assert_eq!(Color::default(), Color::Purple);
}

#[test]
fn test_largest_with_extra_large() {
    let cover = Cover {
        extra_large: Some("https://example.com/extra_large.jpg".to_string()),
        large: Some("https://example.com/large.jpg".to_string()),
        medium: Some("https://example.com/medium.jpg".to_string()),
        color: None,
    };

    assert_eq!(cover.largest(), Some("https://example.com/extra_large.jpg"));
}

#[test]
fn cover_test_largest_with_large() {
    let cover = Cover {
        extra_large: None,
        large: Some("https://example.com/large.jpg".to_string()),
        medium: Some("https://example.com/medium.jpg".to_string()),
        color: None,
    };

    assert_eq!(cover.largest(), Some("https://example.com/large.jpg"));
}

#[test]
fn test_largest_with_medium() {
    let cover = Cover {
        extra_large: None,
        large: None,
        medium: Some("https://example.com/medium.jpg".to_string()),
        color: None,
    };

    assert_eq!(cover.largest(), Some("https://example.com/medium.jpg"));
}

#[test]
fn test_largest_with_none() {
    let cover = Cover {
        extra_large: None,
        large: None,
        medium: None,
        color: None,
    };

    assert_eq!(cover.largest(), None);
}

#[test]
fn test_new() {
    let date = Date::new(Some(2023), Some(10), Some(5));

    assert_eq!(date.year(), Some(2023));
    assert_eq!(date.month(), Some(10));
    assert_eq!(date.day(), Some(5));
}

#[test]
fn test_now() {
    let date = Date::now();
    let now = chrono::Local::now().naive_local().date();

    assert_eq!(date.year(), Some(now.year()));
    assert_eq!(date.month(), Some(now.month()));
    assert_eq!(date.day(), Some(now.day()));
}

#[test]
fn test_year() {
    let date = Date::new(Some(2023), None, None);

    assert_eq!(date.year(), Some(2023));
}

#[test]
fn test_month() {
    let date = Date::new(None, Some(10), None);

    assert_eq!(date.month(), Some(10));
}

#[test]
fn test_day() {
    let date = Date::new(None, None, Some(5));

    assert_eq!(date.day(), Some(5));
}

#[test]
fn test_format() {
    let date = Date::new(Some(2023), Some(10), Some(5));
    let formatted = date.format("{yyyy}-{mm}-{dd}");

    assert_eq!(formatted, "2023-10-05");
}

#[test]
fn format_fills_every_placeholder() {
    let date = Date::new(Some(2007), Some(3), Some(9));
    assert_eq!(date.format("{yy}/{m}/{d} {YEAR} {MON} {DD} {D}"), "07/3/9 2007 03 09 9");
    assert_eq!(date.format("{Y}{YY}{M}{MM}"), "200707303");
    let partial = Date::new(None, Some(12), None);
    assert_eq!(partial.format("{yyyy}-{mm}-{dd}"), "{yyyy}-12-{dd}");
    let negative = Date::new(Some(-45), None, None);
    assert_eq!(negative.format("{y} {yy}"), "-45 -45");
}

#[test]
fn test_as_string() {
    let date = Date::new(Some(2023), Some(10), Some(5));
    let date_string = date.as_string();

    assert_eq!(date_string, "2023-10-05");
}

#[test]
fn as_string_leaves_unknown_parts_empty() {
    assert_eq!(Date::new(None, Some(1), None).as_string(), "-01-");
    assert_eq!(Date::new(Some(1999), None, Some(31)).as_string(), "1999--31");
}

#[test]
fn test_is_valid() {
    let valid_date = Date::new(Some(2023), Some(10), Some(5));
    let invalid_date = Date::new(Some(2023), None, Some(5));

    assert!(valid_date.is_valid());
    assert!(!invalid_date.is_valid());
}

#[test]
fn test_format_name() {
    assert_eq!(Format::Tv.name(), "TV");
    assert_eq!(Format::TvShort.name(), "TV Short");
    assert_eq!(Format::Movie.name(), "Movie");
    assert_eq!(Format::Special.name(), "Special");
    assert_eq!(Format::Ova.name(), "OVA");
    assert_eq!(Format::Ona.name(), "ONA");
    assert_eq!(Format::Music.name(), "Music");
    assert_eq!(Format::Manga.name(), "Manga");
    assert_eq!(Format::Novel.name(), "Novel");
    assert_eq!(Format::OneShot.name(), "One-Shot");
}

#[test]
fn format_test_from_str() {
    assert_eq!(Format::from("tv"), Format::Tv);
    assert_eq!(Format::from("TV_SHORT"), Format::TvShort);
    assert_eq!(Format::from("movie"), Format::Movie);
    assert_eq!(Format::from("SPECIAL"), Format::Special);
    assert_eq!(Format::from("ova"), Format::Ova);
    assert_eq!(Format::from("ONA"), Format::Ona);
    assert_eq!(Format::from("music"), Format::Music);
    assert_eq!(Format::from("MANGA"), Format::Manga);
    assert_eq!(Format::from("novel"), Format::Novel);
    assert_eq!(Format::from("ONE_SHOT"), Format::OneShot);
    assert_eq!(Format::from("unknown"), Format::Tv); // Default case
}

#[test]
fn format_test_from_string() {
    assert_eq!(Format::from("tv".to_string()), Format::Tv);
    assert_eq!(Format::from("TV_SHORT".to_string()), Format::TvShort);
    assert_eq!(Format::from("movie".to_string()), Format::Movie);
    assert_eq!(Format::from("SPECIAL".to_string()), Format::Special);
    assert_eq!(Format::from("ova".to_string()), Format::Ova);
    assert_eq!(Format::from("ONA".to_string()), Format::Ona);
    assert_eq!(Format::from("music".to_string()), Format::Music);
    assert_eq!(Format::from("MANGA".to_string()), Format::Manga);
    assert_eq!(Format::from("novel".to_string()), Format::Novel);
    assert_eq!(Format::from("ONE_SHOT".to_string()), Format::OneShot);
    assert_eq!(Format::from("unknown".to_string()), Format::Tv); // Default case
}

#[test]
fn format_summaries_and_trimmed_names() {
    assert_eq!(Format::OneShot.summary(), "Manga with just one chapter");
    assert_eq!(Format::from("  movie\t"), Format::Movie);
}

#[test]
fn image_test_largest_with_large() {
    let image = Image {
        large: "https://example.com/large.jpg".to_string(),
        medium: "https://example.com/medium.jpg".to_string(),
    };

    assert_eq!(image.largest(), "https://example.com/large.jpg");
}

#[test]
fn test_largest_with_empty_large() {
    let image = Image {
        large: "".to_string(),
        medium: "https://example.com/medium.jpg".to_string(),
    };

    assert_eq!(image.largest(), "https://example.com/medium.jpg");
}

#[test]
fn test_largest_with_empty_large_and_medium() {
    let image = Image {
        large: "".to_string(),
        medium: "".to_string(),
    };

    assert_eq!(image.largest(), "");
}

fn sample_name() -> Name {
    Name {
        first: "John".to_string(),
        middle: Some("Doe".to_string()),
        last: Some("Smith".to_string()),
        full: "John Doe Smith".to_string(),
        native: Some("ジョン ドウ スミス".to_string()),
        alternative: vec!["Johnny".to_string()],
        alternative_spoiler: Some(vec!["J.D.".to_string()]),
        user_preferred: Some("John Smith".to_string()),
    }
}

#[test]
fn test_full() {
    let name = sample_name();

    assert_eq!(name.full(), "John Doe Smith");
}

#[test]
fn name_test_native() {
    let name = sample_name();

    assert_eq!(name.native(), Some("ジョン ドウ スミス".to_string()));
}

#[test]
fn test_alternative() {
    let name = sample_name();

    assert_eq!(name.alternative(), vec!["Johnny".to_string()]);
}

#[test]
fn test_spoiler() {
    let name = sample_name();

    assert_eq!(name.spoiler(), Some(vec!["J.D.".to_string()]));
}

#[test]
fn test_user_preferred() {
    let name = sample_name();

    assert_eq!(name.user_preferred(), Some("John Smith".to_string()));
}

#[test]
fn test_season_name() {
    assert_eq!(Season::Winter.name(), "Winter");
    assert_eq!(Season::Spring.name(), "Spring");
    assert_eq!(Season::Summer.name(), "Summer");
    assert_eq!(Season::Fall.name(), "Fall");
}

#[test]
fn season_test_from_str() {
    assert_eq!(Season::from("winter"), Season::Winter);
    assert_eq!(Season::from("SPRING"), Season::Spring);
    assert_eq!(Season::from("Summer"), Season::Summer);
    assert_eq!(Season::from("fall"), Season::Fall);
    assert_eq!(Season::from("unknown"), Season::Winter); // Default case
}

#[test]
fn season_test_from_string() {
    assert_eq!(Season::from("winter".to_string()), Season::Winter);
    assert_eq!(Season::from("SPRING".to_string()), Season::Spring);
    assert_eq!(Season::from("Summer".to_string()), Season::Summer);
    assert_eq!(Season::from("fall".to_string()), Season::Fall);
    assert_eq!(Season::from("unknown".to_string()), Season::Winter); // Default case
}

#[test]
fn source_test_from_str() {
    assert_eq!(Source::from("original"), Source::Original);
    assert_eq!(Source::from("MANGA"), Source::Manga);
    assert_eq!(Source::from("light_novel"), Source::LightNovel);
    assert_eq!(Source::from("VISUAL_NOVEL"), Source::VisualNovel);
    assert_eq!(Source::from("video_game"), Source::VideoGame);
    assert_eq!(Source::from("other"), Source::Other);
    assert_eq!(Source::from("NOVEL"), Source::Novel);
    assert_eq!(Source::from("doujinshi"), Source::Doujinshi);
    assert_eq!(Source::from("ANIME"), Source::Anime);
    assert_eq!(Source::from("web_novel"), Source::WebNovel);
    assert_eq!(Source::from("LIVE_ACTION"), Source::LiveAction);
    assert_eq!(Source::from("game"), Source::Game);
    assert_eq!(Source::from("COMIC"), Source::Comic);
    assert_eq!(
        Source::from("multimedia_project"),
        Source::MultimediaProject
    );
    assert_eq!(Source::from("picture_book"), Source::PictureBook);
    assert_eq!(Source::from("unknown"), Source::Other); // Default case
}

#[test]
fn source_test_from_string() {
    assert_eq!(Source::from("original".to_string()), Source::Original);
    assert_eq!(Source::from("MANGA".to_string()), Source::Manga);
    assert_eq!(Source::from("light_novel".to_string()), Source::LightNovel);
    assert_eq!(
        Source::from("VISUAL_NOVEL".to_string()),
        Source::VisualNovel
    );
    assert_eq!(Source::from("video_game".to_string()), Source::VideoGame);
    assert_eq!(Source::from("other".to_string()), Source::Other);
    assert_eq!(Source::from("NOVEL".to_string()), Source::Novel);
    assert_eq!(Source::from("doujinshi".to_string()), Source::Doujinshi);
    assert_eq!(Source::from("ANIME".to_string()), Source::Anime);
    assert_eq!(Source::from("web_novel".to_string()), Source::WebNovel);
    assert_eq!(Source::from("LIVE_ACTION".to_string()), Source::LiveAction);
    assert_eq!(Source::from("game".to_string()), Source::Game);
    assert_eq!(Source::from("COMIC".to_string()), Source::Comic);
    assert_eq!(
        Source::from("multimedia_project".to_string()),
        Source::MultimediaProject
    );
    assert_eq!(
        Source::from("picture_book".to_string()),
        Source::PictureBook
    );
    assert_eq!(Source::from("unknown".to_string()), Source::Other); // Default case
}

#[test]
fn source_is_not_trimmed_and_has_labels() {
    assert_eq!(Source::from(" manga"), Source::Other);
    assert_eq!(Source::LightNovel.label(), "Light Novel");
    assert_eq!(Source::Doujinshi.summary(), "Self-published works");
}

fn native_title() -> Title {
    Title {
        romaji: None,
        english: None,
        native: "Native Title".to_string(),
        user_preferred: None,
    }
}

#[test]
fn test_romaji_with_romaji() {
    let title = Title {
        romaji: Some("Romaji Title".to_string()),
        english: None,
        native: "Native Title".to_string(),
        user_preferred: None,
    };

    assert_eq!(title.romaji(), "Romaji Title");
}

#[test]
fn test_romaji_without_romaji() {
    let title = native_title();

    assert_eq!(title.romaji(), "Native Title");
}

#[test]
fn test_english_with_english() {
    let title = Title {
        romaji: None,
        english: Some("English Title".to_string()),
        native: "Native Title".to_string(),
        user_preferred: None,
    };

    assert_eq!(title.english(), "English Title");
}

#[test]
fn test_english_without_english() {
    let title = native_title();

    assert_eq!(title.english(), "Native Title");
}

#[test]
fn title_test_native() {
    let title = native_title();

    assert_eq!(title.native(), "Native Title");
}

#[test]
fn test_user_preferred_with_user_preferred() {
    let title = Title {
        romaji: None,
        english: None,
        native: "Native Title".to_string(),
        user_preferred: Some("User Preferred Title".to_string()),
    };

    assert_eq!(title.user_preferred(), "User Preferred Title");
}

#[test]
fn test_user_preferred_without_user_preferred() {
    let title = native_title();

    assert_eq!(title.user_preferred(), "Native Title");
}

#[test]
fn test_from_title_to_string() {
    let title = native_title();
    let title_string: String = title.into();

    assert_eq!(title_string, "Native Title");
}

#[test]
fn title_emptiness() {
    assert!(Title::default().is_empty());
    assert!(!native_title().is_empty());
}

#[test]
fn unknown_wire_texts_read_as_defaults() {
    assert_eq!(Status::from("SOMETHING_NEW"), Status::NotYetReleased);
    assert_eq!(Status::from(" releasing "), Status::Releasing);
    assert_eq!(RelationType::from("NEW_KIND"), RelationType::Other);
    assert_eq!(LinkType::from("nope"), LinkType::Info);
    assert_eq!(NotificationType::from("?"), NotificationType::ActivityMessage);
    assert_eq!(CharacterRole::from("CAMEO"), CharacterRole::Background);
    assert_eq!(CharacterRole::from("main"), CharacterRole::Main);
    assert_eq!(UserTitleLanguage::from("klingon"), UserTitleLanguage::Romaji);
    assert_eq!(UserStaffNameLanguage::from("native"), UserStaffNameLanguage::Native);
    assert_eq!(Language::from("xx"), Language::Japanese);
    assert_eq!(Gender::from_wire("Agender"), Gender::Other("Agender".to_string()));
}

#[test]
fn language_aliases_codes_and_native_names() {
    assert_eq!(Language::from("jp"), Language::Japanese);
    assert_eq!(Language::from("UK"), Language::English);
    assert_eq!(Language::from("philippine"), Language::Filipino);
    assert_eq!(Language::Portuguese.code(), "pt");
    assert_eq!(Language::Filipino.iso(), "fil");
    assert_eq!(Language::German.native(), "Deutsch");
    assert_eq!(Language::Korean.label(), "Korean");
}

#[test]
fn gender_reads_known_values() {
    assert_eq!(Gender::from_wire("Male"), Gender::Male);
    assert_eq!(Gender::from_wire(" female "), Gender::Female);
    assert_eq!(Gender::from_wire("Non-binary"), Gender::NonBinary);
    assert_eq!(Gender::default(), Gender::Other("Neutral".to_string()));
}

#[test]
fn status_and_relation_texts() {
    assert_eq!(Status::Hiatus.label(), "Hiatus");
    assert_eq!(Status::NotYetReleased.summary(), "To be released in the future.");
    assert_eq!(RelationType::Character.summary(), "Shares at least 1 character");
}
