//! The `MediaListOptions` struct.
use vstd::prelude::*;

use crate::json::{Json, absent, field, fits_text, get, member_or_null, object_of, object_or_null, text_fits, text_or_empty, text_or_empty_field};
use crate::error::Error;
use crate::models::MediaListTypeOptions;

verus! {

/// The options of a user's anime and manga lists.
#[derive(Debug, Clone, PartialEq, Default)]
pub struct MediaListOptions {
    /// The order of the rows.
    pub row_order: String,
    /// The anime list options.
    pub anime_list: MediaListTypeOptions,
    /// The manga list options.
    pub manga_list: MediaListTypeOptions,
}

impl MediaListOptions {
    /// Whether the decoded fields of this media list options are what the object `j` gives;
    /// an absent or `null` member leaves its field unset or empty.
    pub open spec fn matches_json(self, j: Json) -> bool {
        &&& self.row_order@ == text_or_empty(field(j, "rowOrder"@))
        &&& self.anime_list.matches_json(member_or_null(j, "animeList"@))
        &&& self.manga_list.matches_json(member_or_null(j, "mangaList"@))
    }

    /// Whether `j` has the shape of a media list options: an object or `null` whose members
    /// are each absent, `null` or of their expected type.
    pub open spec fn well_typed(j: Json) -> bool {
        &&& object_or_null(j)
        &&& fits_text(field(j, "rowOrder"@))
        &&& MediaListTypeOptions::fits(field(j, "animeList"@))
        &&& MediaListTypeOptions::fits(field(j, "mangaList"@))
    }

    /// Whether a member is absent, or has the shape of a media list options.
    pub open spec fn fits(v: Option<Json>) -> bool {
        match v {
            None => true,
            Some(x) => MediaListOptions::well_typed(x),
        }
    }

    /// Whether an array item is a media list options object.
    pub open spec fn item_ok(j: Json) -> bool {
        j is Object && MediaListOptions::well_typed(j)
    }

    /// Whether a member is absent, `null`, or an array of media list options objects.
    pub open spec fn fits_list(v: Option<Json>) -> bool {
        ||| absent(v)
        ||| (v matches Some(Json::Array(items)) && forall|i: int|
            0 <= i < items@.len() ==> MediaListOptions::item_ok(#[trigger] items@[i]))
    }

    /// Decodes a media list options object; a member of the wrong type is a `DecodeError`.
    pub fn from_json(j: &Json) -> (r: Result<MediaListOptions, Error>)
        ensures
            r is Ok <==> MediaListOptions::well_typed(*j),
            r matches Ok(x) ==> x.matches_json(*j),
            r matches Err(e) ==> e is DecodeError,
    {
        match j {
            Json::Object(_) => {},
            Json::Null => {},
            _ => return Err(Error::DecodeError("object".to_string())),
        }
        if !text_fits(j, "rowOrder") {
            return Err(Error::DecodeError("rowOrder".to_string()));
        }
        let f_row_order = text_or_empty_field(j, "rowOrder");
        let f_anime_list = match MediaListTypeOptions::from_member(j, "animeList") {
            Ok(v) => v,
            Err(e) => return Err(e),
        };
        let f_manga_list = match MediaListTypeOptions::from_member(j, "mangaList") {
            Ok(v) => v,
            Err(e) => return Err(e),
        };
        Ok(MediaListOptions {
            row_order: f_row_order,
            anime_list: f_anime_list,
            manga_list: f_manga_list,
        })
    }

    /// Decodes the member `key` of `j`; an absent member decodes as `null`.
    pub fn from_member(j: &Json, key: &str) -> (r: Result<MediaListOptions, Error>)
        ensures
            r is Ok <==> MediaListOptions::fits(field(*j, key@)),
            r matches Ok(x) ==> x.matches_json(member_or_null(*j, key@)),
            r matches Err(e) ==> e is DecodeError,
    {
        match get(j, key) {
            Some(v) => match MediaListOptions::from_json(v) {
                Ok(x) => Ok(x),
                Err(_) => Err(Error::DecodeError(key.to_string())),
            },
            None => MediaListOptions::from_json(&Json::Null),
        }
    }

    /// Decodes the member `key` of `j` when it is an object; none when it is
    /// absent or `null`.
    pub fn from_optional_member(j: &Json, key: &str) -> (r: Result<Option<MediaListOptions>, Error>)
        ensures
            r is Ok <==> MediaListOptions::fits(field(*j, key@)),
            r matches Ok(o) ==> match object_of(field(*j, key@)) {
                Some(x) => o matches Some(y) && y.matches_json(x),
                None => o is None,
            },
            r matches Err(e) ==> e is DecodeError,
    {
        match get(j, key) {
            Some(v) => match v {
                Json::Object(_) => match MediaListOptions::from_json(v) {
                    Ok(x) => Ok(Some(x)),
                    Err(_) => Err(Error::DecodeError(key.to_string())),
                },
                Json::Null => Ok(None),
                _ => Err(Error::DecodeError(key.to_string())),
            },
            None => Ok(None),
        }
    }

    /// Whether each of `l` is what the item at its index decodes to.
    pub open spec fn seq_matches(l: Seq<MediaListOptions>, items: Seq<Json>) -> bool {
        &&& l.len() == items.len()
        &&& forall|i: int| 0 <= i < items.len() ==> (#[trigger] l[i]).matches_json(items[i])
    }

    /// Decodes the member `key` of `j` as a list of objects; none when it is
    /// absent or `null`.
    pub fn list_field(j: &Json, key: &str) -> (r: Result<Option<Vec<MediaListOptions>>, Error>)
        ensures
            r is Ok <==> MediaListOptions::fits_list(field(*j, key@)),
            r matches Ok(o) ==> match field(*j, key@) {
                Some(Json::Array(items)) => o matches Some(l) && MediaListOptions::seq_matches(l@, items@),
                _ => o is None,
            },
            r matches Err(e) ==> e is DecodeError,
    {
        match get(j, key) {
            Some(Json::Array(items)) => {
                let mut out: Vec<MediaListOptions> = Vec::new();
                let mut i: usize = 0;
                while i < items.len()
                    invariant
                        i <= items@.len(),
                        field(*j, key@) == Some(Json::Array(*items)),
                        out@.len() == i,
                        forall|k: int| 0 <= k < i ==> (#[trigger] out@[k]).matches_json(items@[k]),
                        forall|k: int| 0 <= k < i ==> MediaListOptions::item_ok(#[trigger] items@[k]),
                    decreases items.len() - i,
                {
                    match &items[i] {
                        Json::Object(_) => match MediaListOptions::from_json(&items[i]) {
                            Ok(x) => out.push(x),
                            Err(_) => {
                                assert(!MediaListOptions::item_ok(items@[i as int]));
                                assert(!absent(field(*j, key@)));
                                assert(field(*j, key@) matches Some(Json::Array(its)) && its@ == items@);
                                return Err(Error::DecodeError(key.to_string()));
                            },
                        },
                        _ => {
                            assert(!MediaListOptions::item_ok(items@[i as int]));
                            assert(!absent(field(*j, key@)));
                                assert(field(*j, key@) matches Some(Json::Array(its)) && its@ == items@);
                            return Err(Error::DecodeError(key.to_string()));
                        },
                    }
                    i = i + 1;
                }
                Ok(Some(out))
            },
            Some(Json::Null) => Ok(None),
            None => Ok(None),
            _ => Err(Error::DecodeError(key.to_string())),
        }
    }

    /// Whether two media list optionss hold the same decoded values, field by field (strings by
    /// their characters).
    pub open spec fn agrees(self, o: MediaListOptions) -> bool {
        &&& self.row_order@ == o.row_order@
        &&& self.anime_list.agrees(o.anime_list)
        &&& self.manga_list.agrees(o.manga_list)
    }

    /// Decoding one object twice gives values that agree.
    pub proof fn lemma_decode_agrees(a: MediaListOptions, b: MediaListOptions, j: Json)
        requires
            a.matches_json(j),
            b.matches_json(j),
        ensures
            a.agrees(b),
    {
        MediaListTypeOptions::lemma_decode_agrees(a.anime_list, b.anime_list, member_or_null(j, "animeList"@));
        MediaListTypeOptions::lemma_decode_agrees(a.manga_list, b.manga_list, member_or_null(j, "mangaList"@));
    }

    /// Whether two lists hold values that agree, index by index.
    pub open spec fn seq_agrees(l1: Seq<MediaListOptions>, l2: Seq<MediaListOptions>) -> bool {
        &&& l1.len() == l2.len()
        &&& forall|i: int| 0 <= i < l1.len() ==> (#[trigger] l1[i]).agrees(l2[i])
    }

    /// Decoding one array twice gives lists that agree.
    pub proof fn lemma_seq_agrees(l1: Seq<MediaListOptions>, l2: Seq<MediaListOptions>, items: Seq<Json>)
        requires
            MediaListOptions::seq_matches(l1, items),
            MediaListOptions::seq_matches(l2, items),
        ensures
            MediaListOptions::seq_agrees(l1, l2),
    {
        assert forall|i: int| 0 <= i < l1.len() implies (#[trigger] l1[i]).agrees(l2[i]) by {
            MediaListOptions::lemma_decode_agrees(l1[i], l2[i], items[i]);
        }
    }
}

} // verus!
