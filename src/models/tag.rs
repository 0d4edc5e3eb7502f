//! The `Tag` struct.
use vstd::prelude::*;

use crate::json::{Json, absent, bool_fits, field, fits_bool, fits_int, fits_text, flag_field, flag_of, get, i64_field, i64_of, int_fits, member_or_null, object_of, object_or_null, text_fits, text_or_empty, text_or_empty_field};
use crate::error::Error;
use crate::text::or_else;

verus! {

/// A tag describing a media item.
#[derive(Debug, Clone, PartialEq, Default)]
pub struct Tag {
    /// The ID of the tag.
    pub id: i64,
    /// The name of the tag.
    pub name: String,
    /// The description of the tag.
    pub description: String,
    /// The category of the tag.
    pub category: String,
    /// The rank of the tag.
    pub rank: i64,
    /// Whether the tag is a general spoiler.
    pub is_general_spoiler: bool,
    /// Whether the tag is a spoiler for this media.
    pub is_media_spoiler: bool,
    /// Whether the tag is adult content.
    pub is_adult: bool,
    /// The user who added the tag.
    pub user_id: Option<i64>,
}

impl Tag {
    /// Whether the decoded fields of this tag are what the object `j` gives;
    /// an absent or `null` member leaves its field unset or empty.
    pub open spec fn matches_json(self, j: Json) -> bool {
        &&& self.id == or_else(i64_of(field(j, "id"@)), 0i64)
        &&& self.name@ == text_or_empty(field(j, "name"@))
        &&& self.description@ == text_or_empty(field(j, "description"@))
        &&& self.category@ == text_or_empty(field(j, "category"@))
        &&& self.rank == or_else(i64_of(field(j, "rank"@)), 0i64)
        &&& self.is_general_spoiler == flag_of(field(j, "isGeneralSpoiler"@))
        &&& self.is_media_spoiler == flag_of(field(j, "isMediaSpoiler"@))
        &&& self.is_adult == flag_of(field(j, "isAdult"@))
        &&& self.user_id == i64_of(field(j, "userId"@))
    }

    /// Whether `j` has the shape of a tag: an object or `null` whose members
    /// are each absent, `null` or of their expected type.
    pub open spec fn well_typed(j: Json) -> bool {
        &&& object_or_null(j)
        &&& fits_int(field(j, "id"@), i64::MIN as int, i64::MAX as int)
        &&& fits_text(field(j, "name"@))
        &&& fits_text(field(j, "description"@))
        &&& fits_text(field(j, "category"@))
        &&& fits_int(field(j, "rank"@), i64::MIN as int, i64::MAX as int)
        &&& fits_bool(field(j, "isGeneralSpoiler"@))
        &&& fits_bool(field(j, "isMediaSpoiler"@))
        &&& fits_bool(field(j, "isAdult"@))
        &&& fits_int(field(j, "userId"@), i64::MIN as int, i64::MAX as int)
    }

    /// Whether a member is absent, or has the shape of a tag.
    pub open spec fn fits(v: Option<Json>) -> bool {
        match v {
            None => true,
            Some(x) => Tag::well_typed(x),
        }
    }

    /// Whether an array item is a tag object.
    pub open spec fn item_ok(j: Json) -> bool {
        j is Object && Tag::well_typed(j)
    }

    /// Whether a member is absent, `null`, or an array of tag objects.
    pub open spec fn fits_list(v: Option<Json>) -> bool {
        ||| absent(v)
        ||| (v matches Some(Json::Array(items)) && forall|i: int|
            0 <= i < items@.len() ==> Tag::item_ok(#[trigger] items@[i]))
    }

    /// Decodes a tag object; a member of the wrong type is a `DecodeError`.
    pub fn from_json(j: &Json) -> (r: Result<Tag, Error>)
        ensures
            r is Ok <==> Tag::well_typed(*j),
            r matches Ok(x) ==> x.matches_json(*j),
            r matches Err(e) ==> e is DecodeError,
    {
        match j {
            Json::Object(_) => {},
            Json::Null => {},
            _ => return Err(Error::DecodeError("object".to_string())),
        }
        if !int_fits(j, "id", i64::MIN as i128, i64::MAX as i128) {
            return Err(Error::DecodeError("id".to_string()));
        }
        let f_id = match i64_field(j, "id") {
            Some(v) => v,
            None => 0,
        };
        if !text_fits(j, "name") {
            return Err(Error::DecodeError("name".to_string()));
        }
        let f_name = text_or_empty_field(j, "name");
        if !text_fits(j, "description") {
            return Err(Error::DecodeError("description".to_string()));
        }
        let f_description = text_or_empty_field(j, "description");
        if !text_fits(j, "category") {
            return Err(Error::DecodeError("category".to_string()));
        }
        let f_category = text_or_empty_field(j, "category");
        if !int_fits(j, "rank", i64::MIN as i128, i64::MAX as i128) {
            return Err(Error::DecodeError("rank".to_string()));
        }
        let f_rank = match i64_field(j, "rank") {
            Some(v) => v,
            None => 0,
        };
        if !bool_fits(j, "isGeneralSpoiler") {
            return Err(Error::DecodeError("isGeneralSpoiler".to_string()));
        }
        let f_is_general_spoiler = flag_field(j, "isGeneralSpoiler");
        if !bool_fits(j, "isMediaSpoiler") {
            return Err(Error::DecodeError("isMediaSpoiler".to_string()));
        }
        let f_is_media_spoiler = flag_field(j, "isMediaSpoiler");
        if !bool_fits(j, "isAdult") {
            return Err(Error::DecodeError("isAdult".to_string()));
        }
        let f_is_adult = flag_field(j, "isAdult");
        if !int_fits(j, "userId", i64::MIN as i128, i64::MAX as i128) {
            return Err(Error::DecodeError("userId".to_string()));
        }
        let f_user_id = i64_field(j, "userId");
        Ok(Tag {
            id: f_id,
            name: f_name,
            description: f_description,
            category: f_category,
            rank: f_rank,
            is_general_spoiler: f_is_general_spoiler,
            is_media_spoiler: f_is_media_spoiler,
            is_adult: f_is_adult,
            user_id: f_user_id,
        })
    }

    /// Decodes the member `key` of `j`; an absent member decodes as `null`.
    pub fn from_member(j: &Json, key: &str) -> (r: Result<Tag, Error>)
        ensures
            r is Ok <==> Tag::fits(field(*j, key@)),
            r matches Ok(x) ==> x.matches_json(member_or_null(*j, key@)),
            r matches Err(e) ==> e is DecodeError,
    {
        match get(j, key) {
            Some(v) => match Tag::from_json(v) {
                Ok(x) => Ok(x),
                Err(_) => Err(Error::DecodeError(key.to_string())),
            },
            None => Tag::from_json(&Json::Null),
        }
    }

    /// Decodes the member `key` of `j` when it is an object; none when it is
    /// absent or `null`.
    pub fn from_optional_member(j: &Json, key: &str) -> (r: Result<Option<Tag>, Error>)
        ensures
            r is Ok <==> Tag::fits(field(*j, key@)),
            r matches Ok(o) ==> match object_of(field(*j, key@)) {
                Some(x) => o matches Some(y) && y.matches_json(x),
                None => o is None,
            },
            r matches Err(e) ==> e is DecodeError,
    {
        match get(j, key) {
            Some(v) => match v {
                Json::Object(_) => match Tag::from_json(v) {
                    Ok(x) => Ok(Some(x)),
                    Err(_) => Err(Error::DecodeError(key.to_string())),
                },
                Json::Null => Ok(None),
                _ => Err(Error::DecodeError(key.to_string())),
            },
            None => Ok(None),
        }
    }

    /// Whether each of `l` is what the item at its index decodes to.
    pub open spec fn seq_matches(l: Seq<Tag>, items: Seq<Json>) -> bool {
        &&& l.len() == items.len()
        &&& forall|i: int| 0 <= i < items.len() ==> (#[trigger] l[i]).matches_json(items[i])
    }

    /// Decodes the member `key` of `j` as a list of objects; none when it is
    /// absent or `null`.
    pub fn list_field(j: &Json, key: &str) -> (r: Result<Option<Vec<Tag>>, Error>)
        ensures
            r is Ok <==> Tag::fits_list(field(*j, key@)),
            r matches Ok(o) ==> match field(*j, key@) {
                Some(Json::Array(items)) => o matches Some(l) && Tag::seq_matches(l@, items@),
                _ => o is None,
            },
            r matches Err(e) ==> e is DecodeError,
    {
        match get(j, key) {
            Some(Json::Array(items)) => {
                let mut out: Vec<Tag> = Vec::new();
                let mut i: usize = 0;
                while i < items.len()
                    invariant
                        i <= items@.len(),
                        field(*j, key@) == Some(Json::Array(*items)),
                        out@.len() == i,
                        forall|k: int| 0 <= k < i ==> (#[trigger] out@[k]).matches_json(items@[k]),
                        forall|k: int| 0 <= k < i ==> Tag::item_ok(#[trigger] items@[k]),
                    decreases items.len() - i,
                {
                    match &items[i] {
                        Json::Object(_) => match Tag::from_json(&items[i]) {
                            Ok(x) => out.push(x),
                            Err(_) => {
                                assert(!Tag::item_ok(items@[i as int]));
                                assert(!absent(field(*j, key@)));
                                assert(field(*j, key@) matches Some(Json::Array(its)) && its@ == items@);
                                return Err(Error::DecodeError(key.to_string()));
                            },
                        },
                        _ => {
                            assert(!Tag::item_ok(items@[i as int]));
                            assert(!absent(field(*j, key@)));
                                assert(field(*j, key@) matches Some(Json::Array(its)) && its@ == items@);
                            return Err(Error::DecodeError(key.to_string()));
                        },
                    }
                    i = i + 1;
                }
                Ok(Some(out))
            },
            Some(Json::Null) => Ok(None),
            None => Ok(None),
            _ => Err(Error::DecodeError(key.to_string())),
        }
    }

    /// Whether two tags hold the same decoded values, field by field (strings by
    /// their characters).
    pub open spec fn agrees(self, o: Tag) -> bool {
        &&& self.id == o.id
        &&& self.name@ == o.name@
        &&& self.description@ == o.description@
        &&& self.category@ == o.category@
        &&& self.rank == o.rank
        &&& self.is_general_spoiler == o.is_general_spoiler
        &&& self.is_media_spoiler == o.is_media_spoiler
        &&& self.is_adult == o.is_adult
        &&& self.user_id == o.user_id
    }

    /// Decoding one object twice gives values that agree.
    pub proof fn lemma_decode_agrees(a: Tag, b: Tag, j: Json)
        requires
            a.matches_json(j),
            b.matches_json(j),
        ensures
            a.agrees(b),
    {
    }

    /// Whether two lists hold values that agree, index by index.
    pub open spec fn seq_agrees(l1: Seq<Tag>, l2: Seq<Tag>) -> bool {
        &&& l1.len() == l2.len()
        &&& forall|i: int| 0 <= i < l1.len() ==> (#[trigger] l1[i]).agrees(l2[i])
    }

    /// Decoding one array twice gives lists that agree.
    pub proof fn lemma_seq_agrees(l1: Seq<Tag>, l2: Seq<Tag>, items: Seq<Json>)
        requires
            Tag::seq_matches(l1, items),
            Tag::seq_matches(l2, items),
        ensures
            Tag::seq_agrees(l1, l2),
    {
        assert forall|i: int| 0 <= i < l1.len() implies (#[trigger] l1[i]).agrees(l2[i]) by {
            Tag::lemma_decode_agrees(l1[i], l2[i], items[i]);
        }
    }
}

} // verus!
