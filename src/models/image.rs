//! The `Image` struct.
use vstd::prelude::*;

use crate::json::{Json, absent, field, fits_text, get, member_or_null, object_of, object_or_null, text_fits, text_or_empty, text_or_empty_field};
use crate::error::Error;

verus! {

/// An image in two sizes; a size that is missing is an empty URL.
#[derive(Debug, Clone, PartialEq, Default)]
pub struct Image {
    /// The URL of the large image.
    pub large: String,
    /// The URL of the medium image.
    pub medium: String,
}

impl Image {
    /// Whether the decoded fields of this image are what the object `j` gives;
    /// an absent or `null` member leaves its field unset or empty.
    pub open spec fn matches_json(self, j: Json) -> bool {
        &&& self.large@ == text_or_empty(field(j, "large"@))
        &&& self.medium@ == text_or_empty(field(j, "medium"@))
    }

    /// Whether `j` has the shape of a image: an object or `null` whose members
    /// are each absent, `null` or of their expected type.
    pub open spec fn well_typed(j: Json) -> bool {
        &&& object_or_null(j)
        &&& fits_text(field(j, "large"@))
        &&& fits_text(field(j, "medium"@))
    }

    /// Whether a member is absent, or has the shape of a image.
    pub open spec fn fits(v: Option<Json>) -> bool {
        match v {
            None => true,
            Some(x) => Image::well_typed(x),
        }
    }

    /// Whether an array item is a image object.
    pub open spec fn item_ok(j: Json) -> bool {
        j is Object && Image::well_typed(j)
    }

    /// Whether a member is absent, `null`, or an array of image objects.
    pub open spec fn fits_list(v: Option<Json>) -> bool {
        ||| absent(v)
        ||| (v matches Some(Json::Array(items)) && forall|i: int|
            0 <= i < items@.len() ==> Image::item_ok(#[trigger] items@[i]))
    }

    /// Decodes a image object; a member of the wrong type is a `DecodeError`.
    pub fn from_json(j: &Json) -> (r: Result<Image, Error>)
        ensures
            r is Ok <==> Image::well_typed(*j),
            r matches Ok(x) ==> x.matches_json(*j),
            r matches Err(e) ==> e is DecodeError,
    {
        match j {
            Json::Object(_) => {},
            Json::Null => {},
            _ => return Err(Error::DecodeError("object".to_string())),
        }
        if !text_fits(j, "large") {
            return Err(Error::DecodeError("large".to_string()));
        }
        let f_large = text_or_empty_field(j, "large");
        if !text_fits(j, "medium") {
            return Err(Error::DecodeError("medium".to_string()));
        }
        let f_medium = text_or_empty_field(j, "medium");
        Ok(Image {
            large: f_large,
            medium: f_medium,
        })
    }

    /// Decodes the member `key` of `j`; an absent member decodes as `null`.
    pub fn from_member(j: &Json, key: &str) -> (r: Result<Image, Error>)
        ensures
            r is Ok <==> Image::fits(field(*j, key@)),
            r matches Ok(x) ==> x.matches_json(member_or_null(*j, key@)),
            r matches Err(e) ==> e is DecodeError,
    {
        match get(j, key) {
            Some(v) => match Image::from_json(v) {
                Ok(x) => Ok(x),
                Err(_) => Err(Error::DecodeError(key.to_string())),
            },
            None => Image::from_json(&Json::Null),
        }
    }

    /// Decodes the member `key` of `j` when it is an object; none when it is
    /// absent or `null`.
    pub fn from_optional_member(j: &Json, key: &str) -> (r: Result<Option<Image>, Error>)
        ensures
            r is Ok <==> Image::fits(field(*j, key@)),
            r matches Ok(o) ==> match object_of(field(*j, key@)) {
                Some(x) => o matches Some(y) && y.matches_json(x),
                None => o is None,
            },
            r matches Err(e) ==> e is DecodeError,
    {
        match get(j, key) {
            Some(v) => match v {
                Json::Object(_) => match Image::from_json(v) {
                    Ok(x) => Ok(Some(x)),
                    Err(_) => Err(Error::DecodeError(key.to_string())),
                },
                Json::Null => Ok(None),
                _ => Err(Error::DecodeError(key.to_string())),
            },
            None => Ok(None),
        }
    }

    /// Whether each of `l` is what the item at its index decodes to.
    pub open spec fn seq_matches(l: Seq<Image>, items: Seq<Json>) -> bool {
        &&& l.len() == items.len()
        &&& forall|i: int| 0 <= i < items.len() ==> (#[trigger] l[i]).matches_json(items[i])
    }

    /// Decodes the member `key` of `j` as a list of objects; none when it is
    /// absent or `null`.
    pub fn list_field(j: &Json, key: &str) -> (r: Result<Option<Vec<Image>>, Error>)
        ensures
            r is Ok <==> Image::fits_list(field(*j, key@)),
            r matches Ok(o) ==> match field(*j, key@) {
                Some(Json::Array(items)) => o matches Some(l) && Image::seq_matches(l@, items@),
                _ => o is None,
            },
            r matches Err(e) ==> e is DecodeError,
    {
        match get(j, key) {
            Some(Json::Array(items)) => {
                let mut out: Vec<Image> = Vec::new();
                let mut i: usize = 0;
                while i < items.len()
                    invariant
                        i <= items@.len(),
                        field(*j, key@) == Some(Json::Array(*items)),
                        out@.len() == i,
                        forall|k: int| 0 <= k < i ==> (#[trigger] out@[k]).matches_json(items@[k]),
                        forall|k: int| 0 <= k < i ==> Image::item_ok(#[trigger] items@[k]),
                    decreases items.len() - i,
                {
                    match &items[i] {
                        Json::Object(_) => match Image::from_json(&items[i]) {
                            Ok(x) => out.push(x),
                            Err(_) => {
                                assert(!Image::item_ok(items@[i as int]));
                                assert(!absent(field(*j, key@)));
                                assert(field(*j, key@) matches Some(Json::Array(its)) && its@ == items@);
                                return Err(Error::DecodeError(key.to_string()));
                            },
                        },
                        _ => {
                            assert(!Image::item_ok(items@[i as int]));
                            assert(!absent(field(*j, key@)));
                                assert(field(*j, key@) matches Some(Json::Array(its)) && its@ == items@);
                            return Err(Error::DecodeError(key.to_string()));
                        },
                    }
                    i = i + 1;
                }
                Ok(Some(out))
            },
            Some(Json::Null) => Ok(None),
            None => Ok(None),
            _ => Err(Error::DecodeError(key.to_string())),
        }
    }

    /// Whether two images hold the same decoded values, field by field (strings by
    /// their characters).
    pub open spec fn agrees(self, o: Image) -> bool {
        &&& self.large@ == o.large@
        &&& self.medium@ == o.medium@
    }

    /// Decoding one object twice gives values that agree.
    pub proof fn lemma_decode_agrees(a: Image, b: Image, j: Json)
        requires
            a.matches_json(j),
            b.matches_json(j),
        ensures
            a.agrees(b),
    {
    }

    /// Whether two lists hold values that agree, index by index.
    pub open spec fn seq_agrees(l1: Seq<Image>, l2: Seq<Image>) -> bool {
        &&& l1.len() == l2.len()
        &&& forall|i: int| 0 <= i < l1.len() ==> (#[trigger] l1[i]).agrees(l2[i])
    }

    /// Decoding one array twice gives lists that agree.
    pub proof fn lemma_seq_agrees(l1: Seq<Image>, l2: Seq<Image>, items: Seq<Json>)
        requires
            Image::seq_matches(l1, items),
            Image::seq_matches(l2, items),
        ensures
            Image::seq_agrees(l1, l2),
    {
        assert forall|i: int| 0 <= i < l1.len() implies (#[trigger] l1[i]).agrees(l2[i]) by {
            Image::lemma_decode_agrees(l1[i], l2[i], items[i]);
        }
    }
}

impl Image {
    /// The large URL, or the medium one when the large is empty.
    pub open spec fn largest_spec(self) -> Seq<char> {
        if self.large@.len() == 0 {
            self.medium@
        } else {
            self.large@
        }
    }
    /// Returns the URL of the largest image: the large one unless it is empty.
    pub fn largest(&self) -> (r: &str)
        ensures
            r@ == self.largest_spec(),
    {
        if self.large.as_str().unicode_len() == 0 {
            self.medium.as_str()
        } else {
            self.large.as_str()
        }
    }
}

} // verus!
