//! The `UserStatisticTypes` struct.
use vstd::prelude::*;

use crate::json::{Json, absent, field, get, member_or_null, object_of, object_or_null};
use crate::error::Error;
use crate::models::UserStatistics;

verus! {

/// A user's statistics for anime and for manga.
#[derive(Debug, Clone, PartialEq, Default)]
pub struct UserStatisticTypes {
    /// The anime statistics.
    pub anime: UserStatistics,
    /// The manga statistics.
    pub manga: UserStatistics,
}

impl UserStatisticTypes {
    /// Whether the decoded fields of this statistics are what the object `j` gives;
    /// an absent or `null` member leaves its field unset or empty.
    pub open spec fn matches_json(self, j: Json) -> bool {
        &&& self.anime.matches_json(member_or_null(j, "anime"@))
        &&& self.manga.matches_json(member_or_null(j, "manga"@))
    }

    /// Whether `j` has the shape of a statistics: an object or `null` whose members
    /// are each absent, `null` or of their expected type.
    pub open spec fn well_typed(j: Json) -> bool {
        &&& object_or_null(j)
        &&& UserStatistics::fits(field(j, "anime"@))
        &&& UserStatistics::fits(field(j, "manga"@))
    }

    /// Whether a member is absent, or has the shape of a statistics.
    pub open spec fn fits(v: Option<Json>) -> bool {
        match v {
            None => true,
            Some(x) => UserStatisticTypes::well_typed(x),
        }
    }

    /// Whether an array item is a statistics object.
    pub open spec fn item_ok(j: Json) -> bool {
        j is Object && UserStatisticTypes::well_typed(j)
    }

    /// Whether a member is absent, `null`, or an array of statistics objects.
    pub open spec fn fits_list(v: Option<Json>) -> bool {
        ||| absent(v)
        ||| (v matches Some(Json::Array(items)) && forall|i: int|
            0 <= i < items@.len() ==> UserStatisticTypes::item_ok(#[trigger] items@[i]))
    }

    /// Decodes a statistics object; a member of the wrong type is a `DecodeError`.
    pub fn from_json(j: &Json) -> (r: Result<UserStatisticTypes, Error>)
        ensures
            r is Ok <==> UserStatisticTypes::well_typed(*j),
            r matches Ok(x) ==> x.matches_json(*j),
            r matches Err(e) ==> e is DecodeError,
    {
        match j {
            Json::Object(_) => {},
            Json::Null => {},
            _ => return Err(Error::DecodeError("object".to_string())),
        }
        let f_anime = match UserStatistics::from_member(j, "anime") {
            Ok(v) => v,
            Err(e) => return Err(e),
        };
        let f_manga = match UserStatistics::from_member(j, "manga") {
            Ok(v) => v,
            Err(e) => return Err(e),
        };
        Ok(UserStatisticTypes {
            anime: f_anime,
            manga: f_manga,
        })
    }

    /// Decodes the member `key` of `j`; an absent member decodes as `null`.
    pub fn from_member(j: &Json, key: &str) -> (r: Result<UserStatisticTypes, Error>)
        ensures
            r is Ok <==> UserStatisticTypes::fits(field(*j, key@)),
            r matches Ok(x) ==> x.matches_json(member_or_null(*j, key@)),
            r matches Err(e) ==> e is DecodeError,
    {
        match get(j, key) {
            Some(v) => match UserStatisticTypes::from_json(v) {
                Ok(x) => Ok(x),
                Err(_) => Err(Error::DecodeError(key.to_string())),
            },
            None => UserStatisticTypes::from_json(&Json::Null),
        }
    }

    /// Decodes the member `key` of `j` when it is an object; none when it is
    /// absent or `null`.
    pub fn from_optional_member(j: &Json, key: &str) -> (r: Result<Option<UserStatisticTypes>, Error>)
        ensures
            r is Ok <==> UserStatisticTypes::fits(field(*j, key@)),
            r matches Ok(o) ==> match object_of(field(*j, key@)) {
                Some(x) => o matches Some(y) && y.matches_json(x),
                None => o is None,
            },
            r matches Err(e) ==> e is DecodeError,
    {
        match get(j, key) {
            Some(v) => match v {
                Json::Object(_) => match UserStatisticTypes::from_json(v) {
                    Ok(x) => Ok(Some(x)),
                    Err(_) => Err(Error::DecodeError(key.to_string())),
                },
                Json::Null => Ok(None),
                _ => Err(Error::DecodeError(key.to_string())),
            },
            None => Ok(None),
        }
    }

    /// Whether each of `l` is what the item at its index decodes to.
    pub open spec fn seq_matches(l: Seq<UserStatisticTypes>, items: Seq<Json>) -> bool {
        &&& l.len() == items.len()
        &&& forall|i: int| 0 <= i < items.len() ==> (#[trigger] l[i]).matches_json(items[i])
    }

    /// Decodes the member `key` of `j` as a list of objects; none when it is
    /// absent or `null`.
    pub fn list_field(j: &Json, key: &str) -> (r: Result<Option<Vec<UserStatisticTypes>>, Error>)
        ensures
            r is Ok <==> UserStatisticTypes::fits_list(field(*j, key@)),
            r matches Ok(o) ==> match field(*j, key@) {
                Some(Json::Array(items)) => o matches Some(l) && UserStatisticTypes::seq_matches(l@, items@),
                _ => o is None,
            },
            r matches Err(e) ==> e is DecodeError,
    {
        match get(j, key) {
            Some(Json::Array(items)) => {
                let mut out: Vec<UserStatisticTypes> = Vec::new();
                let mut i: usize = 0;
                while i < items.len()
                    invariant
                        i <= items@.len(),
                        field(*j, key@) == Some(Json::Array(*items)),
                        out@.len() == i,
                        forall|k: int| 0 <= k < i ==> (#[trigger] out@[k]).matches_json(items@[k]),
                        forall|k: int| 0 <= k < i ==> UserStatisticTypes::item_ok(#[trigger] items@[k]),
                    decreases items.len() - i,
                {
                    match &items[i] {
                        Json::Object(_) => match UserStatisticTypes::from_json(&items[i]) {
                            Ok(x) => out.push(x),
                            Err(_) => {
                                assert(!UserStatisticTypes::item_ok(items@[i as int]));
                                assert(!absent(field(*j, key@)));
                                assert(field(*j, key@) matches Some(Json::Array(its)) && its@ == items@);
                                return Err(Error::DecodeError(key.to_string()));
                            },
                        },
                        _ => {
                            assert(!UserStatisticTypes::item_ok(items@[i as int]));
                            assert(!absent(field(*j, key@)));
                                assert(field(*j, key@) matches Some(Json::Array(its)) && its@ == items@);
                            return Err(Error::DecodeError(key.to_string()));
                        },
                    }
                    i = i + 1;
                }
                Ok(Some(out))
            },
            Some(Json::Null) => Ok(None),
            None => Ok(None),
            _ => Err(Error::DecodeError(key.to_string())),
        }
    }

    /// Whether two statisticss hold the same decoded values, field by field (strings by
    /// their characters).
    pub open spec fn agrees(self, o: UserStatisticTypes) -> bool {
        &&& self.anime.agrees(o.anime)
        &&& self.manga.agrees(o.manga)
    }

    /// Decoding one object twice gives values that agree.
    pub proof fn lemma_decode_agrees(a: UserStatisticTypes, b: UserStatisticTypes, j: Json)
        requires
            a.matches_json(j),
            b.matches_json(j),
        ensures
            a.agrees(b),
    {
        UserStatistics::lemma_decode_agrees(a.anime, b.anime, member_or_null(j, "anime"@));
        UserStatistics::lemma_decode_agrees(a.manga, b.manga, member_or_null(j, "manga"@));
    }

    /// Whether two lists hold values that agree, index by index.
    pub open spec fn seq_agrees(l1: Seq<UserStatisticTypes>, l2: Seq<UserStatisticTypes>) -> bool {
        &&& l1.len() == l2.len()
        &&& forall|i: int| 0 <= i < l1.len() ==> (#[trigger] l1[i]).agrees(l2[i])
    }

    /// Decoding one array twice gives lists that agree.
    pub proof fn lemma_seq_agrees(l1: Seq<UserStatisticTypes>, l2: Seq<UserStatisticTypes>, items: Seq<Json>)
        requires
            UserStatisticTypes::seq_matches(l1, items),
            UserStatisticTypes::seq_matches(l2, items),
        ensures
            UserStatisticTypes::seq_agrees(l1, l2),
    {
        assert forall|i: int| 0 <= i < l1.len() implies (#[trigger] l1[i]).agrees(l2[i]) by {
            UserStatisticTypes::lemma_decode_agrees(l1[i], l2[i], items[i]);
        }
    }
}

} // verus!
