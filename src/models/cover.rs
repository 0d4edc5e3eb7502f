//! The `Cover` struct.
use vstd::prelude::*;

use crate::json::{Json, absent, field, fits_text, get, member_or_null, object_of, object_or_null, text_field, text_fits, text_of};
use crate::error::Error;

use crate::models::Color;

verus! {

/// The cover image of a media item in several sizes, with its accent color.
#[derive(Debug, Clone, PartialEq, Default)]
pub struct Cover {
    /// The URL of the extra large image.
    pub extra_large: Option<String>,
    /// The URL of the large image.
    pub large: Option<String>,
    /// The URL of the medium image.
    pub medium: Option<String>,
    /// The accent color of the image.
    pub color: Option<Color>,
}

impl Cover {
    /// Whether the decoded fields of this cover are what the object `j` gives;
    /// an absent or `null` member leaves its field unset or empty.
    pub open spec fn matches_json(self, j: Json) -> bool {
        &&& self.extra_large == text_of(field(j, "extraLarge"@))
        &&& self.large == text_of(field(j, "large"@))
        &&& self.medium == text_of(field(j, "medium"@))
        &&& color_matches(self.color, text_of(field(j, "color"@)))
    }

    /// Whether `j` has the shape of a cover: an object or `null` whose members
    /// are each absent, `null` or of their expected type.
    pub open spec fn well_typed(j: Json) -> bool {
        &&& object_or_null(j)
        &&& fits_text(field(j, "extraLarge"@))
        &&& fits_text(field(j, "large"@))
        &&& fits_text(field(j, "medium"@))
        &&& fits_text(field(j, "color"@))
    }

    /// Whether a member is absent, or has the shape of a cover.
    pub open spec fn fits(v: Option<Json>) -> bool {
        match v {
            None => true,
            Some(x) => Cover::well_typed(x),
        }
    }

    /// Whether an array item is a cover object.
    pub open spec fn item_ok(j: Json) -> bool {
        j is Object && Cover::well_typed(j)
    }

    /// Whether a member is absent, `null`, or an array of cover objects.
    pub open spec fn fits_list(v: Option<Json>) -> bool {
        ||| absent(v)
        ||| (v matches Some(Json::Array(items)) && forall|i: int|
            0 <= i < items@.len() ==> Cover::item_ok(#[trigger] items@[i]))
    }

    /// Decodes a cover object; a member of the wrong type is a `DecodeError`.
    pub fn from_json(j: &Json) -> (r: Result<Cover, Error>)
        ensures
            r is Ok <==> Cover::well_typed(*j),
            r matches Ok(x) ==> x.matches_json(*j),
            r matches Err(e) ==> e is DecodeError,
    {
        match j {
            Json::Object(_) => {},
            Json::Null => {},
            _ => return Err(Error::DecodeError("object".to_string())),
        }
        if !text_fits(j, "extraLarge") {
            return Err(Error::DecodeError("extraLarge".to_string()));
        }
        let f_extra_large = text_field(j, "extraLarge");
        if !text_fits(j, "large") {
            return Err(Error::DecodeError("large".to_string()));
        }
        let f_large = text_field(j, "large");
        if !text_fits(j, "medium") {
            return Err(Error::DecodeError("medium".to_string()));
        }
        let f_medium = text_field(j, "medium");
        if !text_fits(j, "color") {
            return Err(Error::DecodeError("color".to_string()));
        }
        let f_color = color_field(j, "color");
        Ok(Cover {
            extra_large: f_extra_large,
            large: f_large,
            medium: f_medium,
            color: f_color,
        })
    }

    /// Decodes the member `key` of `j`; an absent member decodes as `null`.
    pub fn from_member(j: &Json, key: &str) -> (r: Result<Cover, Error>)
        ensures
            r is Ok <==> Cover::fits(field(*j, key@)),
            r matches Ok(x) ==> x.matches_json(member_or_null(*j, key@)),
            r matches Err(e) ==> e is DecodeError,
    {
        match get(j, key) {
            Some(v) => match Cover::from_json(v) {
                Ok(x) => Ok(x),
                Err(_) => Err(Error::DecodeError(key.to_string())),
            },
            None => Cover::from_json(&Json::Null),
        }
    }

    /// Decodes the member `key` of `j` when it is an object; none when it is
    /// absent or `null`.
    pub fn from_optional_member(j: &Json, key: &str) -> (r: Result<Option<Cover>, Error>)
        ensures
            r is Ok <==> Cover::fits(field(*j, key@)),
            r matches Ok(o) ==> match object_of(field(*j, key@)) {
                Some(x) => o matches Some(y) && y.matches_json(x),
                None => o is None,
            },
            r matches Err(e) ==> e is DecodeError,
    {
        match get(j, key) {
            Some(v) => match v {
                Json::Object(_) => match Cover::from_json(v) {
                    Ok(x) => Ok(Some(x)),
                    Err(_) => Err(Error::DecodeError(key.to_string())),
                },
                Json::Null => Ok(None),
                _ => Err(Error::DecodeError(key.to_string())),
            },
            None => Ok(None),
        }
    }

    /// Whether each of `l` is what the item at its index decodes to.
    pub open spec fn seq_matches(l: Seq<Cover>, items: Seq<Json>) -> bool {
        &&& l.len() == items.len()
        &&& forall|i: int| 0 <= i < items.len() ==> (#[trigger] l[i]).matches_json(items[i])
    }

    /// Decodes the member `key` of `j` as a list of objects; none when it is
    /// absent or `null`.
    pub fn list_field(j: &Json, key: &str) -> (r: Result<Option<Vec<Cover>>, Error>)
        ensures
            r is Ok <==> Cover::fits_list(field(*j, key@)),
            r matches Ok(o) ==> match field(*j, key@) {
                Some(Json::Array(items)) => o matches Some(l) && Cover::seq_matches(l@, items@),
                _ => o is None,
            },
            r matches Err(e) ==> e is DecodeError,
    {
        match get(j, key) {
            Some(Json::Array(items)) => {
                let mut out: Vec<Cover> = Vec::new();
                let mut i: usize = 0;
                while i < items.len()
                    invariant
                        i <= items@.len(),
                        field(*j, key@) == Some(Json::Array(*items)),
                        out@.len() == i,
                        forall|k: int| 0 <= k < i ==> (#[trigger] out@[k]).matches_json(items@[k]),
                        forall|k: int| 0 <= k < i ==> Cover::item_ok(#[trigger] items@[k]),
                    decreases items.len() - i,
                {
                    match &items[i] {
                        Json::Object(_) => match Cover::from_json(&items[i]) {
                            Ok(x) => out.push(x),
                            Err(_) => {
                                assert(!Cover::item_ok(items@[i as int]));
                                assert(!absent(field(*j, key@)));
                                assert(field(*j, key@) matches Some(Json::Array(its)) && its@ == items@);
                                return Err(Error::DecodeError(key.to_string()));
                            },
                        },
                        _ => {
                            assert(!Cover::item_ok(items@[i as int]));
                            assert(!absent(field(*j, key@)));
                                assert(field(*j, key@) matches Some(Json::Array(its)) && its@ == items@);
                            return Err(Error::DecodeError(key.to_string()));
                        },
                    }
                    i = i + 1;
                }
                Ok(Some(out))
            },
            Some(Json::Null) => Ok(None),
            None => Ok(None),
            _ => Err(Error::DecodeError(key.to_string())),
        }
    }

    /// Whether two covers hold the same decoded values, field by field (strings by
    /// their characters).
    pub open spec fn agrees(self, o: Cover) -> bool {
        &&& self.extra_large == o.extra_large
        &&& self.large == o.large
        &&& self.medium == o.medium
        &&& Color::same_option(self.color, o.color)
    }

    /// Decoding one object twice gives values that agree.
    pub proof fn lemma_decode_agrees(a: Cover, b: Cover, j: Json)
        requires
            a.matches_json(j),
            b.matches_json(j),
        ensures
            a.agrees(b),
    {
    }

    /// Whether two lists hold values that agree, index by index.
    pub open spec fn seq_agrees(l1: Seq<Cover>, l2: Seq<Cover>) -> bool {
        &&& l1.len() == l2.len()
        &&& forall|i: int| 0 <= i < l1.len() ==> (#[trigger] l1[i]).agrees(l2[i])
    }

    /// Decoding one array twice gives lists that agree.
    pub proof fn lemma_seq_agrees(l1: Seq<Cover>, l2: Seq<Cover>, items: Seq<Json>)
        requires
            Cover::seq_matches(l1, items),
            Cover::seq_matches(l2, items),
        ensures
            Cover::seq_agrees(l1, l2),
    {
        assert forall|i: int| 0 <= i < l1.len() implies (#[trigger] l1[i]).agrees(l2[i]) by {
            Cover::lemma_decode_agrees(l1[i], l2[i], items[i]);
        }
    }
}

/// Whether `c` is what an optional color text reads as.
pub open spec fn color_matches(c: Option<Color>, v: Option<String>) -> bool {
    match v {
        Some(s) => c matches Some(x) && Color::read_spec(x, s@),
        None => c is None,
    }
}

/// Reads the color member `key`, when it is a string.
pub fn color_field(j: &Json, key: &str) -> (r: Option<Color>)
    ensures
        color_matches(r, text_of(field(*j, key@))),
{
    match get(j, key) {
        Some(Json::Str(s)) => Some(Color::from_wire(s.as_str())),
        _ => None,
    }
}

impl Cover {
    /// The largest image present: extra large, else large, else medium.
    pub open spec fn largest_spec(self) -> Option<String> {
        if self.extra_large is Some {
            self.extra_large
        } else if self.large is Some {
            self.large
        } else {
            self.medium
        }
    }
    /// Returns the URL of the largest image present.
    pub fn largest(&self) -> (r: Option<&str>)
        ensures
            match r {
                Some(s) => self.largest_spec() matches Some(t) && s@ == t@,
                None => self.largest_spec() is None,
            },
    {
        if let Some(s) = &self.extra_large {
            Some(s.as_str())
        } else if let Some(s) = &self.large {
            Some(s.as_str())
        } else if let Some(s) = &self.medium {
            Some(s.as_str())
        } else {
            None
        }
    }
}

} // verus!
