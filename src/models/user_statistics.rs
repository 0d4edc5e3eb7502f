//! The `UserStatistics` struct.
use vstd::prelude::*;

use crate::json::{Json, absent, field, fits_int, get, i32_field, i32_of, int_fits, member_or_null, object_of, object_or_null};
use crate::error::Error;
use crate::models::UserFormatStatistic;
use crate::models::UserStatusStatistic;
use crate::text::or_else;

verus! {

/// A user's statistics for anime or for manga.
#[derive(Debug, Clone, PartialEq, Default)]
pub struct UserStatistics {
    /// The number of entries.
    pub count: i32,
    /// The minutes watched.
    pub minutes_watched: Option<i32>,
    /// The episodes watched.
    pub episodes_watched: Option<i32>,
    /// The chapters read.
    pub chapters_read: Option<i32>,
    /// The volumes read.
    pub volumes_read: Option<i32>,
    /// The statistics by format.
    pub formats: Option<Vec<UserFormatStatistic>>,
    /// The statistics by status.
    pub statuses: Vec<UserStatusStatistic>,
}

impl UserStatistics {
    /// Whether the decoded fields of this statistics are what the object `j` gives;
    /// an absent or `null` member leaves its field unset or empty.
    pub open spec fn matches_json(self, j: Json) -> bool {
        &&& self.count == or_else(i32_of(field(j, "count"@)), 0i32)
        &&& self.minutes_watched == i32_of(field(j, "minutesWatched"@))
        &&& self.episodes_watched == i32_of(field(j, "episodesWatched"@))
        &&& self.chapters_read == i32_of(field(j, "chaptersRead"@))
        &&& self.volumes_read == i32_of(field(j, "volumesRead"@))
        &&& match field(j, "formats"@) {
                Some(Json::Array(items)) => self.formats matches Some(l) && UserFormatStatistic::seq_matches(l@, items@),
                _ => self.formats is None,
            }
        &&& match field(j, "statuses"@) {
                Some(Json::Array(items)) => UserStatusStatistic::seq_matches(self.statuses@, items@),
                _ => self.statuses@.len() == 0,
            }
    }

    /// Whether `j` has the shape of a statistics: an object or `null` whose members
    /// are each absent, `null` or of their expected type.
    pub open spec fn well_typed(j: Json) -> bool {
        &&& object_or_null(j)
        &&& fits_int(field(j, "count"@), i32::MIN as int, i32::MAX as int)
        &&& fits_int(field(j, "minutesWatched"@), i32::MIN as int, i32::MAX as int)
        &&& fits_int(field(j, "episodesWatched"@), i32::MIN as int, i32::MAX as int)
        &&& fits_int(field(j, "chaptersRead"@), i32::MIN as int, i32::MAX as int)
        &&& fits_int(field(j, "volumesRead"@), i32::MIN as int, i32::MAX as int)
        &&& UserFormatStatistic::fits_list(field(j, "formats"@))
        &&& UserStatusStatistic::fits_list(field(j, "statuses"@))
    }

    /// Whether a member is absent, or has the shape of a statistics.
    pub open spec fn fits(v: Option<Json>) -> bool {
        match v {
            None => true,
            Some(x) => UserStatistics::well_typed(x),
        }
    }

    /// Whether an array item is a statistics object.
    pub open spec fn item_ok(j: Json) -> bool {
        j is Object && UserStatistics::well_typed(j)
    }

    /// Whether a member is absent, `null`, or an array of statistics objects.
    pub open spec fn fits_list(v: Option<Json>) -> bool {
        ||| absent(v)
        ||| (v matches Some(Json::Array(items)) && forall|i: int|
            0 <= i < items@.len() ==> UserStatistics::item_ok(#[trigger] items@[i]))
    }

    /// Decodes a statistics object; a member of the wrong type is a `DecodeError`.
    pub fn from_json(j: &Json) -> (r: Result<UserStatistics, Error>)
        ensures
            r is Ok <==> UserStatistics::well_typed(*j),
            r matches Ok(x) ==> x.matches_json(*j),
            r matches Err(e) ==> e is DecodeError,
    {
        match j {
            Json::Object(_) => {},
            Json::Null => {},
            _ => return Err(Error::DecodeError("object".to_string())),
        }
        if !int_fits(j, "count", i32::MIN as i128, i32::MAX as i128) {
            return Err(Error::DecodeError("count".to_string()));
        }
        let f_count = match i32_field(j, "count") {
            Some(v) => v,
            None => 0,
        };
        if !int_fits(j, "minutesWatched", i32::MIN as i128, i32::MAX as i128) {
            return Err(Error::DecodeError("minutesWatched".to_string()));
        }
        let f_minutes_watched = i32_field(j, "minutesWatched");
        if !int_fits(j, "episodesWatched", i32::MIN as i128, i32::MAX as i128) {
            return Err(Error::DecodeError("episodesWatched".to_string()));
        }
        let f_episodes_watched = i32_field(j, "episodesWatched");
        if !int_fits(j, "chaptersRead", i32::MIN as i128, i32::MAX as i128) {
            return Err(Error::DecodeError("chaptersRead".to_string()));
        }
        let f_chapters_read = i32_field(j, "chaptersRead");
        if !int_fits(j, "volumesRead", i32::MIN as i128, i32::MAX as i128) {
            return Err(Error::DecodeError("volumesRead".to_string()));
        }
        let f_volumes_read = i32_field(j, "volumesRead");
        let f_formats = match UserFormatStatistic::list_field(j, "formats") {
            Ok(v) => v,
            Err(e) => return Err(e),
        };
        let f_statuses = match UserStatusStatistic::list_field(j, "statuses") {
            Ok(Some(v)) => v,
            Ok(None) => Vec::new(),
            Err(e) => return Err(e),
        };
        Ok(UserStatistics {
            count: f_count,
            minutes_watched: f_minutes_watched,
            episodes_watched: f_episodes_watched,
            chapters_read: f_chapters_read,
            volumes_read: f_volumes_read,
            formats: f_formats,
            statuses: f_statuses,
        })
    }

    /// Decodes the member `key` of `j`; an absent member decodes as `null`.
    pub fn from_member(j: &Json, key: &str) -> (r: Result<UserStatistics, Error>)
        ensures
            r is Ok <==> UserStatistics::fits(field(*j, key@)),
            r matches Ok(x) ==> x.matches_json(member_or_null(*j, key@)),
            r matches Err(e) ==> e is DecodeError,
    {
        match get(j, key) {
            Some(v) => match UserStatistics::from_json(v) {
                Ok(x) => Ok(x),
                Err(_) => Err(Error::DecodeError(key.to_string())),
            },
            None => UserStatistics::from_json(&Json::Null),
        }
    }

    /// Decodes the member `key` of `j` when it is an object; none when it is
    /// absent or `null`.
    pub fn from_optional_member(j: &Json, key: &str) -> (r: Result<Option<UserStatistics>, Error>)
        ensures
            r is Ok <==> UserStatistics::fits(field(*j, key@)),
            r matches Ok(o) ==> match object_of(field(*j, key@)) {
                Some(x) => o matches Some(y) && y.matches_json(x),
                None => o is None,
            },
            r matches Err(e) ==> e is DecodeError,
    {
        match get(j, key) {
            Some(v) => match v {
                Json::Object(_) => match UserStatistics::from_json(v) {
                    Ok(x) => Ok(Some(x)),
                    Err(_) => Err(Error::DecodeError(key.to_string())),
                },
                Json::Null => Ok(None),
                _ => Err(Error::DecodeError(key.to_string())),
            },
            None => Ok(None),
        }
    }

    /// Whether each of `l` is what the item at its index decodes to.
    pub open spec fn seq_matches(l: Seq<UserStatistics>, items: Seq<Json>) -> bool {
        &&& l.len() == items.len()
        &&& forall|i: int| 0 <= i < items.len() ==> (#[trigger] l[i]).matches_json(items[i])
    }

    /// Decodes the member `key` of `j` as a list of objects; none when it is
    /// absent or `null`.
    pub fn list_field(j: &Json, key: &str) -> (r: Result<Option<Vec<UserStatistics>>, Error>)
        ensures
            r is Ok <==> UserStatistics::fits_list(field(*j, key@)),
            r matches Ok(o) ==> match field(*j, key@) {
                Some(Json::Array(items)) => o matches Some(l) && UserStatistics::seq_matches(l@, items@),
                _ => o is None,
            },
            r matches Err(e) ==> e is DecodeError,
    {
        match get(j, key) {
            Some(Json::Array(items)) => {
                let mut out: Vec<UserStatistics> = Vec::new();
                let mut i: usize = 0;
                while i < items.len()
                    invariant
                        i <= items@.len(),
                        field(*j, key@) == Some(Json::Array(*items)),
                        out@.len() == i,
                        forall|k: int| 0 <= k < i ==> (#[trigger] out@[k]).matches_json(items@[k]),
                        forall|k: int| 0 <= k < i ==> UserStatistics::item_ok(#[trigger] items@[k]),
                    decreases items.len() - i,
                {
                    match &items[i] {
                        Json::Object(_) => match UserStatistics::from_json(&items[i]) {
                            Ok(x) => out.push(x),
                            Err(_) => {
                                assert(!UserStatistics::item_ok(items@[i as int]));
                                assert(!absent(field(*j, key@)));
                                assert(field(*j, key@) matches Some(Json::Array(its)) && its@ == items@);
                                return Err(Error::DecodeError(key.to_string()));
                            },
                        },
                        _ => {
                            assert(!UserStatistics::item_ok(items@[i as int]));
                            assert(!absent(field(*j, key@)));
                                assert(field(*j, key@) matches Some(Json::Array(its)) && its@ == items@);
                            return Err(Error::DecodeError(key.to_string()));
                        },
                    }
                    i = i + 1;
                }
                Ok(Some(out))
            },
            Some(Json::Null) => Ok(None),
            None => Ok(None),
            _ => Err(Error::DecodeError(key.to_string())),
        }
    }

    /// Whether two statisticss hold the same decoded values, field by field (strings by
    /// their characters).
    pub open spec fn agrees(self, o: UserStatistics) -> bool {
        &&& self.count == o.count
        &&& self.minutes_watched == o.minutes_watched
        &&& self.episodes_watched == o.episodes_watched
        &&& self.chapters_read == o.chapters_read
        &&& self.volumes_read == o.volumes_read
        &&& match (self.formats, o.formats) {
                (Some(x), Some(y)) => UserFormatStatistic::seq_agrees(x@, y@),
                (None, None) => true,
                _ => false,
            }
        &&& UserStatusStatistic::seq_agrees(self.statuses@, o.statuses@)
    }

    /// Decoding one object twice gives values that agree.
    pub proof fn lemma_decode_agrees(a: UserStatistics, b: UserStatistics, j: Json)
        requires
            a.matches_json(j),
            b.matches_json(j),
        ensures
            a.agrees(b),
    {
        if let Some(Json::Array(items)) = field(j, "formats"@) {
            UserFormatStatistic::lemma_seq_agrees(a.formats->0@, b.formats->0@, items@);
        }
        if let Some(Json::Array(items)) = field(j, "statuses"@) {
            UserStatusStatistic::lemma_seq_agrees(a.statuses@, b.statuses@, items@);
        }
    }

    /// Whether two lists hold values that agree, index by index.
    pub open spec fn seq_agrees(l1: Seq<UserStatistics>, l2: Seq<UserStatistics>) -> bool {
        &&& l1.len() == l2.len()
        &&& forall|i: int| 0 <= i < l1.len() ==> (#[trigger] l1[i]).agrees(l2[i])
    }

    /// Decoding one array twice gives lists that agree.
    pub proof fn lemma_seq_agrees(l1: Seq<UserStatistics>, l2: Seq<UserStatistics>, items: Seq<Json>)
        requires
            UserStatistics::seq_matches(l1, items),
            UserStatistics::seq_matches(l2, items),
        ensures
            UserStatistics::seq_agrees(l1, l2),
    {
        assert forall|i: int| 0 <= i < l1.len() implies (#[trigger] l1[i]).agrees(l2[i]) by {
            UserStatistics::lemma_decode_agrees(l1[i], l2[i], items[i]);
        }
    }
}

} // verus!
