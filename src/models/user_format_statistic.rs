//! The `UserFormatStatistic` struct.
use vstd::prelude::*;

use crate::json::{Json, absent, field, fits_i32s, fits_int, fits_text, get, i32_field, i32_of, i32s_field, i32s_fits, i32s_of, int_fits, member_or_null, object_of, object_or_null, text_fits, text_of};
use crate::error::Error;
use crate::models::Format;
use crate::text::or_else;

verus! {

/// A user's statistics for one format.
#[derive(Debug, Clone, PartialEq, Default)]
pub struct UserFormatStatistic {
    /// The number of entries.
    pub count: i32,
    /// The minutes watched.
    pub minutes_watched: Option<i32>,
    /// The chapters read.
    pub chapters_read: Option<i32>,
    /// The IDs of the media.
    pub media_ids: Vec<i32>,
    /// The format.
    pub format: Format,
}

impl UserFormatStatistic {
    /// Whether the decoded fields of this format statistic are what the object `j` gives;
    /// an absent or `null` member leaves its field unset or empty.
    pub open spec fn matches_json(self, j: Json) -> bool {
        &&& self.count == or_else(i32_of(field(j, "count"@)), 0i32)
        &&& self.minutes_watched == i32_of(field(j, "minutesWatched"@))
        &&& self.chapters_read == i32_of(field(j, "chaptersRead"@))
        &&& self.media_ids@ == or_else(i32s_of(field(j, "mediaIds"@)), Seq::empty())
        &&& self.format == match text_of(field(j, "format"@)) {
                Some(s) => Format::read_spec(s@),
                None => Format::Tv,
            }
    }

    /// Whether `j` has the shape of a format statistic: an object or `null` whose members
    /// are each absent, `null` or of their expected type.
    pub open spec fn well_typed(j: Json) -> bool {
        &&& object_or_null(j)
        &&& fits_int(field(j, "count"@), i32::MIN as int, i32::MAX as int)
        &&& fits_int(field(j, "minutesWatched"@), i32::MIN as int, i32::MAX as int)
        &&& fits_int(field(j, "chaptersRead"@), i32::MIN as int, i32::MAX as int)
        &&& fits_i32s(field(j, "mediaIds"@))
        &&& fits_text(field(j, "format"@))
    }

    /// Whether a member is absent, or has the shape of a format statistic.
    pub open spec fn fits(v: Option<Json>) -> bool {
        match v {
            None => true,
            Some(x) => UserFormatStatistic::well_typed(x),
        }
    }

    /// Whether an array item is a format statistic object.
    pub open spec fn item_ok(j: Json) -> bool {
        j is Object && UserFormatStatistic::well_typed(j)
    }

    /// Whether a member is absent, `null`, or an array of format statistic objects.
    pub open spec fn fits_list(v: Option<Json>) -> bool {
        ||| absent(v)
        ||| (v matches Some(Json::Array(items)) && forall|i: int|
            0 <= i < items@.len() ==> UserFormatStatistic::item_ok(#[trigger] items@[i]))
    }

    /// Decodes a format statistic object; a member of the wrong type is a `DecodeError`.
    pub fn from_json(j: &Json) -> (r: Result<UserFormatStatistic, Error>)
        ensures
            r is Ok <==> UserFormatStatistic::well_typed(*j),
            r matches Ok(x) ==> x.matches_json(*j),
            r matches Err(e) ==> e is DecodeError,
    {
        match j {
            Json::Object(_) => {},
            Json::Null => {},
            _ => return Err(Error::DecodeError("object".to_string())),
        }
        if !int_fits(j, "count", i32::MIN as i128, i32::MAX as i128) {
            return Err(Error::DecodeError("count".to_string()));
        }
        let f_count = match i32_field(j, "count") {
            Some(v) => v,
            None => 0,
        };
        if !int_fits(j, "minutesWatched", i32::MIN as i128, i32::MAX as i128) {
            return Err(Error::DecodeError("minutesWatched".to_string()));
        }
        let f_minutes_watched = i32_field(j, "minutesWatched");
        if !int_fits(j, "chaptersRead", i32::MIN as i128, i32::MAX as i128) {
            return Err(Error::DecodeError("chaptersRead".to_string()));
        }
        let f_chapters_read = i32_field(j, "chaptersRead");
        if !i32s_fits(j, "mediaIds") {
            return Err(Error::DecodeError("mediaIds".to_string()));
        }
        let f_media_ids = match i32s_field(j, "mediaIds") {
            Some(v) => v,
            None => Vec::new(),
        };
        if !text_fits(j, "format") {
            return Err(Error::DecodeError("format".to_string()));
        }
        let f_format = match get(j, "format") {
            Some(Json::Str(s)) => Format::from(s.as_str()),
            _ => Format::Tv,
        };
        Ok(UserFormatStatistic {
            count: f_count,
            minutes_watched: f_minutes_watched,
            chapters_read: f_chapters_read,
            media_ids: f_media_ids,
            format: f_format,
        })
    }

    /// Decodes the member `key` of `j`; an absent member decodes as `null`.
    pub fn from_member(j: &Json, key: &str) -> (r: Result<UserFormatStatistic, Error>)
        ensures
            r is Ok <==> UserFormatStatistic::fits(field(*j, key@)),
            r matches Ok(x) ==> x.matches_json(member_or_null(*j, key@)),
            r matches Err(e) ==> e is DecodeError,
    {
        match get(j, key) {
            Some(v) => match UserFormatStatistic::from_json(v) {
                Ok(x) => Ok(x),
                Err(_) => Err(Error::DecodeError(key.to_string())),
            },
            None => UserFormatStatistic::from_json(&Json::Null),
        }
    }

    /// Decodes the member `key` of `j` when it is an object; none when it is
    /// absent or `null`.
    pub fn from_optional_member(j: &Json, key: &str) -> (r: Result<Option<UserFormatStatistic>, Error>)
        ensures
            r is Ok <==> UserFormatStatistic::fits(field(*j, key@)),
            r matches Ok(o) ==> match object_of(field(*j, key@)) {
                Some(x) => o matches Some(y) && y.matches_json(x),
                None => o is None,
            },
            r matches Err(e) ==> e is DecodeError,
    {
        match get(j, key) {
            Some(v) => match v {
                Json::Object(_) => match UserFormatStatistic::from_json(v) {
                    Ok(x) => Ok(Some(x)),
                    Err(_) => Err(Error::DecodeError(key.to_string())),
                },
                Json::Null => Ok(None),
                _ => Err(Error::DecodeError(key.to_string())),
            },
            None => Ok(None),
        }
    }

    /// Whether each of `l` is what the item at its index decodes to.
    pub open spec fn seq_matches(l: Seq<UserFormatStatistic>, items: Seq<Json>) -> bool {
        &&& l.len() == items.len()
        &&& forall|i: int| 0 <= i < items.len() ==> (#[trigger] l[i]).matches_json(items[i])
    }

    /// Decodes the member `key` of `j` as a list of objects; none when it is
    /// absent or `null`.
    pub fn list_field(j: &Json, key: &str) -> (r: Result<Option<Vec<UserFormatStatistic>>, Error>)
        ensures
            r is Ok <==> UserFormatStatistic::fits_list(field(*j, key@)),
            r matches Ok(o) ==> match field(*j, key@) {
                Some(Json::Array(items)) => o matches Some(l) && UserFormatStatistic::seq_matches(l@, items@),
                _ => o is None,
            },
            r matches Err(e) ==> e is DecodeError,
    {
        match get(j, key) {
            Some(Json::Array(items)) => {
                let mut out: Vec<UserFormatStatistic> = Vec::new();
                let mut i: usize = 0;
                while i < items.len()
                    invariant
                        i <= items@.len(),
                        field(*j, key@) == Some(Json::Array(*items)),
                        out@.len() == i,
                        forall|k: int| 0 <= k < i ==> (#[trigger] out@[k]).matches_json(items@[k]),
                        forall|k: int| 0 <= k < i ==> UserFormatStatistic::item_ok(#[trigger] items@[k]),
                    decreases items.len() - i,
                {
                    match &items[i] {
                        Json::Object(_) => match UserFormatStatistic::from_json(&items[i]) {
                            Ok(x) => out.push(x),
                            Err(_) => {
                                assert(!UserFormatStatistic::item_ok(items@[i as int]));
                                assert(!absent(field(*j, key@)));
                                assert(field(*j, key@) matches Some(Json::Array(its)) && its@ == items@);
                                return Err(Error::DecodeError(key.to_string()));
                            },
                        },
                        _ => {
                            assert(!UserFormatStatistic::item_ok(items@[i as int]));
                            assert(!absent(field(*j, key@)));
                                assert(field(*j, key@) matches Some(Json::Array(its)) && its@ == items@);
                            return Err(Error::DecodeError(key.to_string()));
                        },
                    }
                    i = i + 1;
                }
                Ok(Some(out))
            },
            Some(Json::Null) => Ok(None),
            None => Ok(None),
            _ => Err(Error::DecodeError(key.to_string())),
        }
    }

    /// Whether two format statistics hold the same decoded values, field by field (strings by
    /// their characters).
    pub open spec fn agrees(self, o: UserFormatStatistic) -> bool {
        &&& self.count == o.count
        &&& self.minutes_watched == o.minutes_watched
        &&& self.chapters_read == o.chapters_read
        &&& self.media_ids@ == o.media_ids@
        &&& self.format == o.format
    }

    /// Decoding one object twice gives values that agree.
    pub proof fn lemma_decode_agrees(a: UserFormatStatistic, b: UserFormatStatistic, j: Json)
        requires
            a.matches_json(j),
            b.matches_json(j),
        ensures
            a.agrees(b),
    {
    }

    /// Whether two lists hold values that agree, index by index.
    pub open spec fn seq_agrees(l1: Seq<UserFormatStatistic>, l2: Seq<UserFormatStatistic>) -> bool {
        &&& l1.len() == l2.len()
        &&& forall|i: int| 0 <= i < l1.len() ==> (#[trigger] l1[i]).agrees(l2[i])
    }

    /// Decoding one array twice gives lists that agree.
    pub proof fn lemma_seq_agrees(l1: Seq<UserFormatStatistic>, l2: Seq<UserFormatStatistic>, items: Seq<Json>)
        requires
            UserFormatStatistic::seq_matches(l1, items),
            UserFormatStatistic::seq_matches(l2, items),
        ensures
            UserFormatStatistic::seq_agrees(l1, l2),
    {
        assert forall|i: int| 0 <= i < l1.len() implies (#[trigger] l1[i]).agrees(l2[i]) by {
            UserFormatStatistic::lemma_decode_agrees(l1[i], l2[i], items[i]);
        }
    }
}

} // verus!
