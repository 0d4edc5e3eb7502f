//! The `Manga` struct.
use vstd::prelude::*;

use crate::json::{Json, absent, bool_field, bool_fits, bool_of, field, fits_bool, fits_int, fits_strings, fits_text, flag_field, flag_of, get, i64_field, i64_of, int_fits, member_or_null, object_of, object_or_null, strings_field, strings_fits, strings_of, text_field, text_fits, text_of, text_or_empty, text_or_empty_field, u16_field, u16_of, u32_field, u32_of, u64_field, u64_of, u8_field, u8_of};
use crate::client::Client;
use crate::error::Error;
use crate::models::Cover;
use crate::models::Date;
use crate::models::Format;
use crate::models::Link;
use crate::models::Person;
use crate::models::Source;
use crate::models::Status;
use crate::models::Studio;
use crate::models::Tag;
use crate::models::Title;

verus! {

/// A manga. Its relations and characters are kept as the documents the service sent, and are decoded on each call of `relations` and `characters`.
#[derive(Debug, PartialEq)]
pub struct Manga {
    /// The ID of the manga.
    pub id: i64,
    /// The ID of the manga on MyAnimeList.
    pub id_mal: Option<i64>,
    /// The title of the manga.
    pub title: Title,
    /// The format of the manga.
    pub format: Format,
    /// The status of the manga.
    pub status: Status,
    /// The description of the manga.
    pub description: String,
    /// The start date of the manga.
    pub start_date: Option<Date>,
    /// The end date of the manga.
    pub end_date: Option<Date>,
    /// The number of chapters.
    pub chapters: Option<u16>,
    /// The number of volumes.
    pub volumes: Option<u16>,
    /// The country of origin.
    pub country_of_origin: Option<String>,
    /// Whether the manga is licensed.
    pub is_licensed: Option<bool>,
    /// The source material.
    pub source: Option<Source>,
    /// The hashtag of the manga.
    pub hashtag: Option<String>,
    /// When the manga was last updated.
    pub updated_at: Option<u64>,
    /// The cover image.
    pub cover: Cover,
    /// The banner image.
    pub banner: Option<String>,
    /// The genres.
    pub genres: Option<Vec<String>>,
    /// Other titles.
    pub synonyms: Option<Vec<String>>,
    /// The average score.
    pub average_score: Option<u8>,
    /// The mean score.
    pub mean_score: Option<u8>,
    /// The popularity.
    pub popularity: Option<u32>,
    /// Whether the manga is locked.
    pub is_locked: Option<bool>,
    /// The trending rank.
    pub trending: Option<u32>,
    /// The number of favourites.
    pub favourites: Option<u32>,
    /// The tags.
    pub tags: Option<Vec<Tag>>,
    /// Whether the manga is a favourite.
    pub is_favourite: Option<bool>,
    /// Whether favouriting is blocked.
    pub is_favourite_blocked: Option<bool>,
    /// Whether the manga is adult content.
    pub is_adult: bool,
    /// The external links.
    pub external_links: Option<Vec<Link>>,
    /// The site URL of the manga.
    pub url: String,
    /// The relations, as sent: `{edges: [...]}`.
    pub relations: Json,
    /// The characters, as sent: `{edges: [...]}`.
    pub characters: Json,
    /// The staff of the manga; not fetched.
    pub staff: Option<Vec<Person>>,
    /// The studios of the manga; not fetched.
    pub studios: Option<Vec<Studio>>,
    /// The configuration used to fetch more data.
    pub client: Client,
    /// Whether every field was fetched.
    pub is_full_loaded: bool,
}

impl Manga {
    /// Whether the decoded fields of this manga are what the object `j` gives;
    /// an absent or `null` member leaves its field unset or empty.
    pub open spec fn matches_json(self, j: Json) -> bool {
        &&& self.id == i64_of(field(j, "id"@))->0
        &&& self.id_mal == i64_of(field(j, "idMal"@))
        &&& self.title.matches_json(member_or_null(j, "title"@))
        &&& self.format == match text_of(field(j, "format"@)) {
                Some(s) => Format::read_spec(s@),
                None => Format::Tv,
            }
        &&& self.status == match text_of(field(j, "status"@)) {
                Some(s) => Status::read_spec(s@),
                None => Status::NotYetReleased,
            }
        &&& self.description@ == text_or_empty(field(j, "description"@))
        &&& match object_of(field(j, "startDate"@)) {
                Some(o) => self.start_date matches Some(x) && x.matches_json(o),
                None => self.start_date is None,
            }
        &&& match object_of(field(j, "endDate"@)) {
                Some(o) => self.end_date matches Some(x) && x.matches_json(o),
                None => self.end_date is None,
            }
        &&& self.chapters == u16_of(field(j, "chapters"@))
        &&& self.volumes == u16_of(field(j, "volumes"@))
        &&& self.country_of_origin == text_of(field(j, "countryOfOrigin"@))
        &&& self.is_licensed == bool_of(field(j, "isLicensed"@))
        &&& self.source == match text_of(field(j, "source"@)) {
                Some(s) => Some(Source::read_spec(s@)),
                None => None,
            }
        &&& self.hashtag == text_of(field(j, "hashtag"@))
        &&& self.updated_at == u64_of(field(j, "updatedAt"@))
        &&& self.cover.matches_json(member_or_null(j, "coverImage"@))
        &&& self.banner == text_of(field(j, "bannerImage"@))
        &&& match strings_of(field(j, "genres"@)) {
                Some(v) => self.genres matches Some(a) && a@ == v,
                None => self.genres is None,
            }
        &&& match strings_of(field(j, "synonyms"@)) {
                Some(v) => self.synonyms matches Some(a) && a@ == v,
                None => self.synonyms is None,
            }
        &&& self.average_score == u8_of(field(j, "averageScore"@))
        &&& self.mean_score == u8_of(field(j, "meanScore"@))
        &&& self.popularity == u32_of(field(j, "popularity"@))
        &&& self.is_locked == bool_of(field(j, "isLocked"@))
        &&& self.trending == u32_of(field(j, "trending"@))
        &&& self.favourites == u32_of(field(j, "favourites"@))
        &&& match field(j, "tags"@) {
                Some(Json::Array(items)) => self.tags matches Some(l) && Tag::seq_matches(l@, items@),
                _ => self.tags is None,
            }
        &&& self.is_favourite == bool_of(field(j, "isFavourite"@))
        &&& self.is_favourite_blocked == bool_of(field(j, "isFavouriteBlocked"@))
        &&& self.is_adult == flag_of(field(j, "isAdult"@))
        &&& match field(j, "externalLinks"@) {
                Some(Json::Array(items)) => self.external_links matches Some(l) && Link::seq_matches(l@, items@),
                _ => self.external_links is None,
            }
        &&& self.url@ == text_or_empty(field(j, "siteUrl"@))
    }

    /// Whether `j` has the shape of a manga: an object or `null` whose members
    /// are each absent, `null` or of their expected type.
    pub open spec fn well_typed(j: Json) -> bool {
        &&& object_or_null(j)
        &&& fits_int(field(j, "idMal"@), i64::MIN as int, i64::MAX as int)
        &&& Title::fits(field(j, "title"@))
        &&& fits_text(field(j, "format"@))
        &&& fits_text(field(j, "status"@))
        &&& fits_text(field(j, "description"@))
        &&& Date::fits(field(j, "startDate"@))
        &&& Date::fits(field(j, "endDate"@))
        &&& fits_int(field(j, "chapters"@), 0 as int, 65535 as int)
        &&& fits_int(field(j, "volumes"@), 0 as int, 65535 as int)
        &&& fits_text(field(j, "countryOfOrigin"@))
        &&& fits_bool(field(j, "isLicensed"@))
        &&& fits_text(field(j, "source"@))
        &&& fits_text(field(j, "hashtag"@))
        &&& fits_int(field(j, "updatedAt"@), 0 as int, 18446744073709551615 as int)
        &&& Cover::fits(field(j, "coverImage"@))
        &&& fits_text(field(j, "bannerImage"@))
        &&& fits_strings(field(j, "genres"@))
        &&& fits_strings(field(j, "synonyms"@))
        &&& fits_int(field(j, "averageScore"@), 0 as int, 255 as int)
        &&& fits_int(field(j, "meanScore"@), 0 as int, 255 as int)
        &&& fits_int(field(j, "popularity"@), 0 as int, 4294967295 as int)
        &&& fits_bool(field(j, "isLocked"@))
        &&& fits_int(field(j, "trending"@), 0 as int, 4294967295 as int)
        &&& fits_int(field(j, "favourites"@), 0 as int, 4294967295 as int)
        &&& Tag::fits_list(field(j, "tags"@))
        &&& fits_bool(field(j, "isFavourite"@))
        &&& fits_bool(field(j, "isFavouriteBlocked"@))
        &&& fits_bool(field(j, "isAdult"@))
        &&& Link::fits_list(field(j, "externalLinks"@))
        &&& fits_text(field(j, "siteUrl"@))
    }

    /// Whether `j` decodes as a manga: its `id` is an integer in range and it is
    /// well typed.
    pub open spec fn decodes(j: Json) -> bool {
        i64_of(field(j, "id"@)) is Some && Manga::well_typed(j)
    }

    /// Whether this manga is what `from_json` makes of `j` with `client` and `full`.
    pub open spec fn decoded_from(self, j: Json, client: Client, full: bool) -> bool {
        &&& self.matches_json(j)
        &&& self.relations == Json::Null
        &&& self.characters == Json::Null
        &&& self.staff is None
        &&& self.studios is None
        &&& self.client == client
        &&& self.is_full_loaded == full
    }

    /// Decodes a manga object. It fails with `DecodeError("id")` when the member
    /// `id` is not an integer in range, and with a `DecodeError` naming the member
    /// when another member is present, not `null`, and of the wrong type.
    pub fn from_json(j: &Json, client: &Client, full: bool) -> (r: Result<Manga, Error>)
        ensures
            r is Ok <==> Manga::decodes(*j),
            r matches Ok(x) ==> x.decoded_from(*j, *client, full),
            i64_of(field(*j, "id"@)) is None ==> (r matches Err(e) && e matches Error::DecodeError(m) && m@ == "id"@),
            r matches Err(e) ==> e is DecodeError,
    {
        let id = match i64_field(j, "id") {
            Some(v) => v,
            None => return Err(Error::DecodeError("id".to_string())),
        };
        if !int_fits(j, "idMal", i64::MIN as i128, i64::MAX as i128) {
            return Err(Error::DecodeError("idMal".to_string()));
        }
        let f_id_mal = i64_field(j, "idMal");
        let f_title = match Title::from_member(j, "title") {
            Ok(v) => v,
            Err(e) => return Err(e),
        };
        if !text_fits(j, "format") {
            return Err(Error::DecodeError("format".to_string()));
        }
        let f_format = match get(j, "format") {
            Some(Json::Str(s)) => Format::from(s.as_str()),
            _ => Format::Tv,
        };
        if !text_fits(j, "status") {
            return Err(Error::DecodeError("status".to_string()));
        }
        let f_status = match get(j, "status") {
            Some(Json::Str(s)) => Status::from(s.as_str()),
            _ => Status::NotYetReleased,
        };
        if !text_fits(j, "description") {
            return Err(Error::DecodeError("description".to_string()));
        }
        let f_description = text_or_empty_field(j, "description");
        let f_start_date = match Date::from_optional_member(j, "startDate") {
            Ok(v) => v,
            Err(e) => return Err(e),
        };
        let f_end_date = match Date::from_optional_member(j, "endDate") {
            Ok(v) => v,
            Err(e) => return Err(e),
        };
        if !int_fits(j, "chapters", 0 as i128, 65535 as i128) {
            return Err(Error::DecodeError("chapters".to_string()));
        }
        let f_chapters = u16_field(j, "chapters");
        if !int_fits(j, "volumes", 0 as i128, 65535 as i128) {
            return Err(Error::DecodeError("volumes".to_string()));
        }
        let f_volumes = u16_field(j, "volumes");
        if !text_fits(j, "countryOfOrigin") {
            return Err(Error::DecodeError("countryOfOrigin".to_string()));
        }
        let f_country_of_origin = text_field(j, "countryOfOrigin");
        if !bool_fits(j, "isLicensed") {
            return Err(Error::DecodeError("isLicensed".to_string()));
        }
        let f_is_licensed = bool_field(j, "isLicensed");
        if !text_fits(j, "source") {
            return Err(Error::DecodeError("source".to_string()));
        }
        let f_source = match get(j, "source") {
            Some(Json::Str(s)) => Some(Source::from(s.as_str())),
            _ => None,
        };
        if !text_fits(j, "hashtag") {
            return Err(Error::DecodeError("hashtag".to_string()));
        }
        let f_hashtag = text_field(j, "hashtag");
        if !int_fits(j, "updatedAt", 0 as i128, 18446744073709551615 as i128) {
            return Err(Error::DecodeError("updatedAt".to_string()));
        }
        let f_updated_at = u64_field(j, "updatedAt");
        let f_cover = match Cover::from_member(j, "coverImage") {
            Ok(v) => v,
            Err(e) => return Err(e),
        };
        if !text_fits(j, "bannerImage") {
            return Err(Error::DecodeError("bannerImage".to_string()));
        }
        let f_banner = text_field(j, "bannerImage");
        if !strings_fits(j, "genres") {
            return Err(Error::DecodeError("genres".to_string()));
        }
        let f_genres = strings_field(j, "genres");
        if !strings_fits(j, "synonyms") {
            return Err(Error::DecodeError("synonyms".to_string()));
        }
        let f_synonyms = strings_field(j, "synonyms");
        if !int_fits(j, "averageScore", 0 as i128, 255 as i128) {
            return Err(Error::DecodeError("averageScore".to_string()));
        }
        let f_average_score = u8_field(j, "averageScore");
        if !int_fits(j, "meanScore", 0 as i128, 255 as i128) {
            return Err(Error::DecodeError("meanScore".to_string()));
        }
        let f_mean_score = u8_field(j, "meanScore");
        if !int_fits(j, "popularity", 0 as i128, 4294967295 as i128) {
            return Err(Error::DecodeError("popularity".to_string()));
        }
        let f_popularity = u32_field(j, "popularity");
        if !bool_fits(j, "isLocked") {
            return Err(Error::DecodeError("isLocked".to_string()));
        }
        let f_is_locked = bool_field(j, "isLocked");
        if !int_fits(j, "trending", 0 as i128, 4294967295 as i128) {
            return Err(Error::DecodeError("trending".to_string()));
        }
        let f_trending = u32_field(j, "trending");
        if !int_fits(j, "favourites", 0 as i128, 4294967295 as i128) {
            return Err(Error::DecodeError("favourites".to_string()));
        }
        let f_favourites = u32_field(j, "favourites");
        let f_tags = match Tag::list_field(j, "tags") {
            Ok(v) => v,
            Err(e) => return Err(e),
        };
        if !bool_fits(j, "isFavourite") {
            return Err(Error::DecodeError("isFavourite".to_string()));
        }
        let f_is_favourite = bool_field(j, "isFavourite");
        if !bool_fits(j, "isFavouriteBlocked") {
            return Err(Error::DecodeError("isFavouriteBlocked".to_string()));
        }
        let f_is_favourite_blocked = bool_field(j, "isFavouriteBlocked");
        if !bool_fits(j, "isAdult") {
            return Err(Error::DecodeError("isAdult".to_string()));
        }
        let f_is_adult = flag_field(j, "isAdult");
        let f_external_links = match Link::list_field(j, "externalLinks") {
            Ok(v) => v,
            Err(e) => return Err(e),
        };
        if !text_fits(j, "siteUrl") {
            return Err(Error::DecodeError("siteUrl".to_string()));
        }
        let f_url = text_or_empty_field(j, "siteUrl");
        Ok(Manga {
            id,
            id_mal: f_id_mal,
            title: f_title,
            format: f_format,
            status: f_status,
            description: f_description,
            start_date: f_start_date,
            end_date: f_end_date,
            chapters: f_chapters,
            volumes: f_volumes,
            country_of_origin: f_country_of_origin,
            is_licensed: f_is_licensed,
            source: f_source,
            hashtag: f_hashtag,
            updated_at: f_updated_at,
            cover: f_cover,
            banner: f_banner,
            genres: f_genres,
            synonyms: f_synonyms,
            average_score: f_average_score,
            mean_score: f_mean_score,
            popularity: f_popularity,
            is_locked: f_is_locked,
            trending: f_trending,
            favourites: f_favourites,
            tags: f_tags,
            is_favourite: f_is_favourite,
            is_favourite_blocked: f_is_favourite_blocked,
            is_adult: f_is_adult,
            external_links: f_external_links,
            url: f_url,
            relations: Json::Null,
            characters: Json::Null,
            staff: None,
            studios: None,
            client: client.duplicate(),
            is_full_loaded: full,
        })
    }

    /// Whether two mangas hold the same decoded values, field by field (strings by
    /// their characters).
    pub open spec fn agrees(self, o: Manga) -> bool {
        &&& self.id == o.id
        &&& self.id_mal == o.id_mal
        &&& self.title.agrees(o.title)
        &&& self.format == o.format
        &&& self.status == o.status
        &&& self.description@ == o.description@
        &&& match (self.start_date, o.start_date) {
                (Some(x), Some(y)) => x.agrees(y),
                (None, None) => true,
                _ => false,
            }
        &&& match (self.end_date, o.end_date) {
                (Some(x), Some(y)) => x.agrees(y),
                (None, None) => true,
                _ => false,
            }
        &&& self.chapters == o.chapters
        &&& self.volumes == o.volumes
        &&& self.country_of_origin == o.country_of_origin
        &&& self.is_licensed == o.is_licensed
        &&& self.source == o.source
        &&& self.hashtag == o.hashtag
        &&& self.updated_at == o.updated_at
        &&& self.cover.agrees(o.cover)
        &&& self.banner == o.banner
        &&& match (self.genres, o.genres) {
                (Some(x), Some(y)) => x@ == y@,
                (None, None) => true,
                _ => false,
            }
        &&& match (self.synonyms, o.synonyms) {
                (Some(x), Some(y)) => x@ == y@,
                (None, None) => true,
                _ => false,
            }
        &&& self.average_score == o.average_score
        &&& self.mean_score == o.mean_score
        &&& self.popularity == o.popularity
        &&& self.is_locked == o.is_locked
        &&& self.trending == o.trending
        &&& self.favourites == o.favourites
        &&& match (self.tags, o.tags) {
                (Some(x), Some(y)) => Tag::seq_agrees(x@, y@),
                (None, None) => true,
                _ => false,
            }
        &&& self.is_favourite == o.is_favourite
        &&& self.is_favourite_blocked == o.is_favourite_blocked
        &&& self.is_adult == o.is_adult
        &&& match (self.external_links, o.external_links) {
                (Some(x), Some(y)) => Link::seq_agrees(x@, y@),
                (None, None) => true,
                _ => false,
            }
        &&& self.url@ == o.url@
    }

    /// Decoding one object twice gives values that agree.
    pub proof fn lemma_decode_agrees(a: Manga, b: Manga, j: Json)
        requires
            a.matches_json(j),
            b.matches_json(j),
        ensures
            a.agrees(b),
    {
        Title::lemma_decode_agrees(a.title, b.title, member_or_null(j, "title"@));
        if let Some(o) = object_of(field(j, "startDate"@)) {
            Date::lemma_decode_agrees(a.start_date->0, b.start_date->0, o);
        }
        if let Some(o) = object_of(field(j, "endDate"@)) {
            Date::lemma_decode_agrees(a.end_date->0, b.end_date->0, o);
        }
        Cover::lemma_decode_agrees(a.cover, b.cover, member_or_null(j, "coverImage"@));
        if let Some(Json::Array(items)) = field(j, "tags"@) {
            Tag::lemma_seq_agrees(a.tags->0@, b.tags->0@, items@);
        }
        if let Some(Json::Array(items)) = field(j, "externalLinks"@) {
            Link::lemma_seq_agrees(a.external_links->0@, b.external_links->0@, items@);
        }
    }
}

} // verus!
