//! The `Studio` struct.
use vstd::prelude::*;

use crate::json::{Json, absent, bool_field, bool_fits, bool_of, field, fits_bool, fits_int, fits_text, flag_field, flag_of, get, i64_field, i64_of, int_fits, member_or_null, object_of, object_or_null, text_fits, text_or_empty, text_or_empty_field};
use crate::error::Error;
use crate::text::or_else;

verus! {

/// A studio that produces media.
#[derive(Debug, Clone, PartialEq, Default)]
pub struct Studio {
    /// The ID of the studio.
    pub id: i64,
    /// The name of the studio.
    pub name: String,
    /// Whether the studio is an animation studio.
    pub is_animation_studio: bool,
    /// The site URL of the studio.
    pub url: String,
    /// Whether the studio is a favourite.
    pub is_favourite: Option<bool>,
    /// The number of favourites.
    pub favourites: i64,
}

impl Studio {
    /// Whether the decoded fields of this studio are what the object `j` gives;
    /// an absent or `null` member leaves its field unset or empty.
    pub open spec fn matches_json(self, j: Json) -> bool {
        &&& self.id == or_else(i64_of(field(j, "id"@)), 0i64)
        &&& self.name@ == text_or_empty(field(j, "name"@))
        &&& self.is_animation_studio == flag_of(field(j, "isAnimationStudio"@))
        &&& self.url@ == text_or_empty(field(j, "siteUrl"@))
        &&& self.is_favourite == bool_of(field(j, "isFavourite"@))
        &&& self.favourites == or_else(i64_of(field(j, "favourites"@)), 0i64)
    }

    /// Whether `j` has the shape of a studio: an object or `null` whose members
    /// are each absent, `null` or of their expected type.
    pub open spec fn well_typed(j: Json) -> bool {
        &&& object_or_null(j)
        &&& fits_int(field(j, "id"@), i64::MIN as int, i64::MAX as int)
        &&& fits_text(field(j, "name"@))
        &&& fits_bool(field(j, "isAnimationStudio"@))
        &&& fits_text(field(j, "siteUrl"@))
        &&& fits_bool(field(j, "isFavourite"@))
        &&& fits_int(field(j, "favourites"@), i64::MIN as int, i64::MAX as int)
    }

    /// Whether a member is absent, or has the shape of a studio.
    pub open spec fn fits(v: Option<Json>) -> bool {
        match v {
            None => true,
            Some(x) => Studio::well_typed(x),
        }
    }

    /// Whether an array item is a studio object.
    pub open spec fn item_ok(j: Json) -> bool {
        j is Object && Studio::well_typed(j)
    }

    /// Whether a member is absent, `null`, or an array of studio objects.
    pub open spec fn fits_list(v: Option<Json>) -> bool {
        ||| absent(v)
        ||| (v matches Some(Json::Array(items)) && forall|i: int|
            0 <= i < items@.len() ==> Studio::item_ok(#[trigger] items@[i]))
    }

    /// Decodes a studio object; a member of the wrong type is a `DecodeError`.
    pub fn from_json(j: &Json) -> (r: Result<Studio, Error>)
        ensures
            r is Ok <==> Studio::well_typed(*j),
            r matches Ok(x) ==> x.matches_json(*j),
            r matches Err(e) ==> e is DecodeError,
    {
        match j {
            Json::Object(_) => {},
            Json::Null => {},
            _ => return Err(Error::DecodeError("object".to_string())),
        }
        if !int_fits(j, "id", i64::MIN as i128, i64::MAX as i128) {
            return Err(Error::DecodeError("id".to_string()));
        }
        let f_id = match i64_field(j, "id") {
            Some(v) => v,
            None => 0,
        };
        if !text_fits(j, "name") {
            return Err(Error::DecodeError("name".to_string()));
        }
        let f_name = text_or_empty_field(j, "name");
        if !bool_fits(j, "isAnimationStudio") {
            return Err(Error::DecodeError("isAnimationStudio".to_string()));
        }
        let f_is_animation_studio = flag_field(j, "isAnimationStudio");
        if !text_fits(j, "siteUrl") {
            return Err(Error::DecodeError("siteUrl".to_string()));
        }
        let f_url = text_or_empty_field(j, "siteUrl");
        if !bool_fits(j, "isFavourite") {
            return Err(Error::DecodeError("isFavourite".to_string()));
        }
        let f_is_favourite = bool_field(j, "isFavourite");
        if !int_fits(j, "favourites", i64::MIN as i128, i64::MAX as i128) {
            return Err(Error::DecodeError("favourites".to_string()));
        }
        let f_favourites = match i64_field(j, "favourites") {
            Some(v) => v,
            None => 0,
        };
        Ok(Studio {
            id: f_id,
            name: f_name,
            is_animation_studio: f_is_animation_studio,
            url: f_url,
            is_favourite: f_is_favourite,
            favourites: f_favourites,
        })
    }

    /// Decodes the member `key` of `j`; an absent member decodes as `null`.
    pub fn from_member(j: &Json, key: &str) -> (r: Result<Studio, Error>)
        ensures
            r is Ok <==> Studio::fits(field(*j, key@)),
            r matches Ok(x) ==> x.matches_json(member_or_null(*j, key@)),
            r matches Err(e) ==> e is DecodeError,
    {
        match get(j, key) {
            Some(v) => match Studio::from_json(v) {
                Ok(x) => Ok(x),
                Err(_) => Err(Error::DecodeError(key.to_string())),
            },
            None => Studio::from_json(&Json::Null),
        }
    }

    /// Decodes the member `key` of `j` when it is an object; none when it is
    /// absent or `null`.
    pub fn from_optional_member(j: &Json, key: &str) -> (r: Result<Option<Studio>, Error>)
        ensures
            r is Ok <==> Studio::fits(field(*j, key@)),
            r matches Ok(o) ==> match object_of(field(*j, key@)) {
                Some(x) => o matches Some(y) && y.matches_json(x),
                None => o is None,
            },
            r matches Err(e) ==> e is DecodeError,
    {
        match get(j, key) {
            Some(v) => match v {
                Json::Object(_) => match Studio::from_json(v) {
                    Ok(x) => Ok(Some(x)),
                    Err(_) => Err(Error::DecodeError(key.to_string())),
                },
                Json::Null => Ok(None),
                _ => Err(Error::DecodeError(key.to_string())),
            },
            None => Ok(None),
        }
    }

    /// Whether each of `l` is what the item at its index decodes to.
    pub open spec fn seq_matches(l: Seq<Studio>, items: Seq<Json>) -> bool {
        &&& l.len() == items.len()
        &&& forall|i: int| 0 <= i < items.len() ==> (#[trigger] l[i]).matches_json(items[i])
    }

    /// Decodes the member `key` of `j` as a list of objects; none when it is
    /// absent or `null`.
    pub fn list_field(j: &Json, key: &str) -> (r: Result<Option<Vec<Studio>>, Error>)
        ensures
            r is Ok <==> Studio::fits_list(field(*j, key@)),
            r matches Ok(o) ==> match field(*j, key@) {
                Some(Json::Array(items)) => o matches Some(l) && Studio::seq_matches(l@, items@),
                _ => o is None,
            },
            r matches Err(e) ==> e is DecodeError,
    {
        match get(j, key) {
            Some(Json::Array(items)) => {
                let mut out: Vec<Studio> = Vec::new();
                let mut i: usize = 0;
                while i < items.len()
                    invariant
                        i <= items@.len(),
                        field(*j, key@) == Some(Json::Array(*items)),
                        out@.len() == i,
                        forall|k: int| 0 <= k < i ==> (#[trigger] out@[k]).matches_json(items@[k]),
                        forall|k: int| 0 <= k < i ==> Studio::item_ok(#[trigger] items@[k]),
                    decreases items.len() - i,
                {
                    match &items[i] {
                        Json::Object(_) => match Studio::from_json(&items[i]) {
                            Ok(x) => out.push(x),
                            Err(_) => {
                                assert(!Studio::item_ok(items@[i as int]));
                                assert(!absent(field(*j, key@)));
                                assert(field(*j, key@) matches Some(Json::Array(its)) && its@ == items@);
                                return Err(Error::DecodeError(key.to_string()));
                            },
                        },
                        _ => {
                            assert(!Studio::item_ok(items@[i as int]));
                            assert(!absent(field(*j, key@)));
                                assert(field(*j, key@) matches Some(Json::Array(its)) && its@ == items@);
                            return Err(Error::DecodeError(key.to_string()));
                        },
                    }
                    i = i + 1;
                }
                Ok(Some(out))
            },
            Some(Json::Null) => Ok(None),
            None => Ok(None),
            _ => Err(Error::DecodeError(key.to_string())),
        }
    }

    /// Whether two studios hold the same decoded values, field by field (strings by
    /// their characters).
    pub open spec fn agrees(self, o: Studio) -> bool {
        &&& self.id == o.id
        &&& self.name@ == o.name@
        &&& self.is_animation_studio == o.is_animation_studio
        &&& self.url@ == o.url@
        &&& self.is_favourite == o.is_favourite
        &&& self.favourites == o.favourites
    }

    /// Decoding one object twice gives values that agree.
    pub proof fn lemma_decode_agrees(a: Studio, b: Studio, j: Json)
        requires
            a.matches_json(j),
            b.matches_json(j),
        ensures
            a.agrees(b),
    {
    }

    /// Whether two lists hold values that agree, index by index.
    pub open spec fn seq_agrees(l1: Seq<Studio>, l2: Seq<Studio>) -> bool {
        &&& l1.len() == l2.len()
        &&& forall|i: int| 0 <= i < l1.len() ==> (#[trigger] l1[i]).agrees(l2[i])
    }

    /// Decoding one array twice gives lists that agree.
    pub proof fn lemma_seq_agrees(l1: Seq<Studio>, l2: Seq<Studio>, items: Seq<Json>)
        requires
            Studio::seq_matches(l1, items),
            Studio::seq_matches(l2, items),
        ensures
            Studio::seq_agrees(l1, l2),
    {
        assert forall|i: int| 0 <= i < l1.len() implies (#[trigger] l1[i]).agrees(l2[i]) by {
            Studio::lemma_decode_agrees(l1[i], l2[i], items[i]);
        }
    }
}

} // verus!
