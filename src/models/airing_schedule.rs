//! The `AiringSchedule` struct.
use vstd::prelude::*;

use crate::json::{Json, absent, field, fits_int, get, i64_field, i64_of, int_fits, member_or_null, object_of, object_or_null, u32_field, u32_of, u64_field, u64_of};
use crate::error::Error;
use crate::text::or_else;

verus! {

/// The next episode of an anime to air.
#[derive(Debug, Clone, Copy, PartialEq, Eq, Default)]
pub struct AiringSchedule {
    /// The ID of the airing schedule.
    pub id: u32,
    /// When the episode airs, as a Unix timestamp.
    pub at: i64,
    /// Seconds until the episode airs.
    pub time_until: u64,
    /// The number of the episode.
    pub episode: u32,
}

impl AiringSchedule {
    /// Whether the decoded fields of this airing schedule are what the object `j` gives;
    /// an absent or `null` member leaves its field unset or empty.
    pub open spec fn matches_json(self, j: Json) -> bool {
        &&& self.id == or_else(u32_of(field(j, "id"@)), 0u32)
        &&& self.at == or_else(i64_of(field(j, "airingAt"@)), 0i64)
        &&& self.time_until == or_else(u64_of(field(j, "timeUntilAiring"@)), 0u64)
        &&& self.episode == or_else(u32_of(field(j, "episode"@)), 0u32)
    }

    /// Whether `j` has the shape of a airing schedule: an object or `null` whose members
    /// are each absent, `null` or of their expected type.
    pub open spec fn well_typed(j: Json) -> bool {
        &&& object_or_null(j)
        &&& fits_int(field(j, "id"@), 0 as int, 4294967295 as int)
        &&& fits_int(field(j, "airingAt"@), i64::MIN as int, i64::MAX as int)
        &&& fits_int(field(j, "timeUntilAiring"@), 0 as int, 18446744073709551615 as int)
        &&& fits_int(field(j, "episode"@), 0 as int, 4294967295 as int)
    }

    /// Whether a member is absent, or has the shape of a airing schedule.
    pub open spec fn fits(v: Option<Json>) -> bool {
        match v {
            None => true,
            Some(x) => AiringSchedule::well_typed(x),
        }
    }

    /// Whether an array item is a airing schedule object.
    pub open spec fn item_ok(j: Json) -> bool {
        j is Object && AiringSchedule::well_typed(j)
    }

    /// Whether a member is absent, `null`, or an array of airing schedule objects.
    pub open spec fn fits_list(v: Option<Json>) -> bool {
        ||| absent(v)
        ||| (v matches Some(Json::Array(items)) && forall|i: int|
            0 <= i < items@.len() ==> AiringSchedule::item_ok(#[trigger] items@[i]))
    }

    /// Decodes a airing schedule object; a member of the wrong type is a `DecodeError`.
    pub fn from_json(j: &Json) -> (r: Result<AiringSchedule, Error>)
        ensures
            r is Ok <==> AiringSchedule::well_typed(*j),
            r matches Ok(x) ==> x.matches_json(*j),
            r matches Err(e) ==> e is DecodeError,
    {
        match j {
            Json::Object(_) => {},
            Json::Null => {},
            _ => return Err(Error::DecodeError("object".to_string())),
        }
        if !int_fits(j, "id", 0 as i128, 4294967295 as i128) {
            return Err(Error::DecodeError("id".to_string()));
        }
        let f_id = match u32_field(j, "id") {
            Some(v) => v,
            None => 0,
        };
        if !int_fits(j, "airingAt", i64::MIN as i128, i64::MAX as i128) {
            return Err(Error::DecodeError("airingAt".to_string()));
        }
        let f_at = match i64_field(j, "airingAt") {
            Some(v) => v,
            None => 0,
        };
        if !int_fits(j, "timeUntilAiring", 0 as i128, 18446744073709551615 as i128) {
            return Err(Error::DecodeError("timeUntilAiring".to_string()));
        }
        let f_time_until = match u64_field(j, "timeUntilAiring") {
            Some(v) => v,
            None => 0,
        };
        if !int_fits(j, "episode", 0 as i128, 4294967295 as i128) {
            return Err(Error::DecodeError("episode".to_string()));
        }
        let f_episode = match u32_field(j, "episode") {
            Some(v) => v,
            None => 0,
        };
        Ok(AiringSchedule {
            id: f_id,
            at: f_at,
            time_until: f_time_until,
            episode: f_episode,
        })
    }

    /// Decodes the member `key` of `j`; an absent member decodes as `null`.
    pub fn from_member(j: &Json, key: &str) -> (r: Result<AiringSchedule, Error>)
        ensures
            r is Ok <==> AiringSchedule::fits(field(*j, key@)),
            r matches Ok(x) ==> x.matches_json(member_or_null(*j, key@)),
            r matches Err(e) ==> e is DecodeError,
    {
        match get(j, key) {
            Some(v) => match AiringSchedule::from_json(v) {
                Ok(x) => Ok(x),
                Err(_) => Err(Error::DecodeError(key.to_string())),
            },
            None => AiringSchedule::from_json(&Json::Null),
        }
    }

    /// Decodes the member `key` of `j` when it is an object; none when it is
    /// absent or `null`.
    pub fn from_optional_member(j: &Json, key: &str) -> (r: Result<Option<AiringSchedule>, Error>)
        ensures
            r is Ok <==> AiringSchedule::fits(field(*j, key@)),
            r matches Ok(o) ==> match object_of(field(*j, key@)) {
                Some(x) => o matches Some(y) && y.matches_json(x),
                None => o is None,
            },
            r matches Err(e) ==> e is DecodeError,
    {
        match get(j, key) {
            Some(v) => match v {
                Json::Object(_) => match AiringSchedule::from_json(v) {
                    Ok(x) => Ok(Some(x)),
                    Err(_) => Err(Error::DecodeError(key.to_string())),
                },
                Json::Null => Ok(None),
                _ => Err(Error::DecodeError(key.to_string())),
            },
            None => Ok(None),
        }
    }

    /// Whether each of `l` is what the item at its index decodes to.
    pub open spec fn seq_matches(l: Seq<AiringSchedule>, items: Seq<Json>) -> bool {
        &&& l.len() == items.len()
        &&& forall|i: int| 0 <= i < items.len() ==> (#[trigger] l[i]).matches_json(items[i])
    }

    /// Decodes the member `key` of `j` as a list of objects; none when it is
    /// absent or `null`.
    pub fn list_field(j: &Json, key: &str) -> (r: Result<Option<Vec<AiringSchedule>>, Error>)
        ensures
            r is Ok <==> AiringSchedule::fits_list(field(*j, key@)),
            r matches Ok(o) ==> match field(*j, key@) {
                Some(Json::Array(items)) => o matches Some(l) && AiringSchedule::seq_matches(l@, items@),
                _ => o is None,
            },
            r matches Err(e) ==> e is DecodeError,
    {
        match get(j, key) {
            Some(Json::Array(items)) => {
                let mut out: Vec<AiringSchedule> = Vec::new();
                let mut i: usize = 0;
                while i < items.len()
                    invariant
                        i <= items@.len(),
                        field(*j, key@) == Some(Json::Array(*items)),
                        out@.len() == i,
                        forall|k: int| 0 <= k < i ==> (#[trigger] out@[k]).matches_json(items@[k]),
                        forall|k: int| 0 <= k < i ==> AiringSchedule::item_ok(#[trigger] items@[k]),
                    decreases items.len() - i,
                {
                    match &items[i] {
                        Json::Object(_) => match AiringSchedule::from_json(&items[i]) {
                            Ok(x) => out.push(x),
                            Err(_) => {
                                assert(!AiringSchedule::item_ok(items@[i as int]));
                                assert(!absent(field(*j, key@)));
                                assert(field(*j, key@) matches Some(Json::Array(its)) && its@ == items@);
                                return Err(Error::DecodeError(key.to_string()));
                            },
                        },
                        _ => {
                            assert(!AiringSchedule::item_ok(items@[i as int]));
                            assert(!absent(field(*j, key@)));
                                assert(field(*j, key@) matches Some(Json::Array(its)) && its@ == items@);
                            return Err(Error::DecodeError(key.to_string()));
                        },
                    }
                    i = i + 1;
                }
                Ok(Some(out))
            },
            Some(Json::Null) => Ok(None),
            None => Ok(None),
            _ => Err(Error::DecodeError(key.to_string())),
        }
    }

    /// Whether two airing schedules hold the same decoded values, field by field (strings by
    /// their characters).
    pub open spec fn agrees(self, o: AiringSchedule) -> bool {
        &&& self.id == o.id
        &&& self.at == o.at
        &&& self.time_until == o.time_until
        &&& self.episode == o.episode
    }

    /// Decoding one object twice gives values that agree.
    pub proof fn lemma_decode_agrees(a: AiringSchedule, b: AiringSchedule, j: Json)
        requires
            a.matches_json(j),
            b.matches_json(j),
        ensures
            a.agrees(b),
    {
    }

    /// Whether two lists hold values that agree, index by index.
    pub open spec fn seq_agrees(l1: Seq<AiringSchedule>, l2: Seq<AiringSchedule>) -> bool {
        &&& l1.len() == l2.len()
        &&& forall|i: int| 0 <= i < l1.len() ==> (#[trigger] l1[i]).agrees(l2[i])
    }

    /// Decoding one array twice gives lists that agree.
    pub proof fn lemma_seq_agrees(l1: Seq<AiringSchedule>, l2: Seq<AiringSchedule>, items: Seq<Json>)
        requires
            AiringSchedule::seq_matches(l1, items),
            AiringSchedule::seq_matches(l2, items),
        ensures
            AiringSchedule::seq_agrees(l1, l2),
    {
        assert forall|i: int| 0 <= i < l1.len() implies (#[trigger] l1[i]).agrees(l2[i]) by {
            AiringSchedule::lemma_decode_agrees(l1[i], l2[i], items[i]);
        }
    }
}

} // verus!
