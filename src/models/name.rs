//! The `Name` struct.
use vstd::prelude::*;

use crate::json::{Json, absent, field, fits_strings, fits_text, get, member_or_null, object_of, object_or_null, strings_field, strings_fits, strings_of, text_field, text_fits, text_of, text_or_empty, text_or_empty_field};
use crate::error::Error;
use crate::text::or_else;

use crate::text::{copy_strings, copy_text};

verus! {

/// The name of a person or a character.
#[derive(Debug, Clone, PartialEq, Default)]
pub struct Name {
    /// The first name.
    pub first: String,
    /// The middle name, if any.
    pub middle: Option<String>,
    /// The last name, if any.
    pub last: Option<String>,
    /// The full name.
    pub full: String,
    /// The native name, if any.
    pub native: Option<String>,
    /// Alternative names.
    pub alternative: Vec<String>,
    /// Alternative names that may contain spoilers.
    pub alternative_spoiler: Option<Vec<String>>,
    /// The name preferred by the user, if any.
    pub user_preferred: Option<String>,
}

impl Name {
    /// Whether the decoded fields of this name are what the object `j` gives;
    /// an absent or `null` member leaves its field unset or empty.
    pub open spec fn matches_json(self, j: Json) -> bool {
        &&& self.first@ == text_or_empty(field(j, "first"@))
        &&& self.middle == text_of(field(j, "middle"@))
        &&& self.last == text_of(field(j, "last"@))
        &&& self.full@ == text_or_empty(field(j, "full"@))
        &&& self.native == text_of(field(j, "native"@))
        &&& self.alternative@ == or_else(strings_of(field(j, "alternative"@)), Seq::empty())
        &&& match strings_of(field(j, "alternativeSpoiler"@)) {
                Some(v) => self.alternative_spoiler matches Some(a) && a@ == v,
                None => self.alternative_spoiler is None,
            }
        &&& self.user_preferred == text_of(field(j, "userPreferred"@))
    }

    /// Whether `j` has the shape of a name: an object or `null` whose members
    /// are each absent, `null` or of their expected type.
    pub open spec fn well_typed(j: Json) -> bool {
        &&& object_or_null(j)
        &&& fits_text(field(j, "first"@))
        &&& fits_text(field(j, "middle"@))
        &&& fits_text(field(j, "last"@))
        &&& fits_text(field(j, "full"@))
        &&& fits_text(field(j, "native"@))
        &&& fits_strings(field(j, "alternative"@))
        &&& fits_strings(field(j, "alternativeSpoiler"@))
        &&& fits_text(field(j, "userPreferred"@))
    }

    /// Whether a member is absent, or has the shape of a name.
    pub open spec fn fits(v: Option<Json>) -> bool {
        match v {
            None => true,
            Some(x) => Name::well_typed(x),
        }
    }

    /// Whether an array item is a name object.
    pub open spec fn item_ok(j: Json) -> bool {
        j is Object && Name::well_typed(j)
    }

    /// Whether a member is absent, `null`, or an array of name objects.
    pub open spec fn fits_list(v: Option<Json>) -> bool {
        ||| absent(v)
        ||| (v matches Some(Json::Array(items)) && forall|i: int|
            0 <= i < items@.len() ==> Name::item_ok(#[trigger] items@[i]))
    }

    /// Decodes a name object; a member of the wrong type is a `DecodeError`.
    pub fn from_json(j: &Json) -> (r: Result<Name, Error>)
        ensures
            r is Ok <==> Name::well_typed(*j),
            r matches Ok(x) ==> x.matches_json(*j),
            r matches Err(e) ==> e is DecodeError,
    {
        match j {
            Json::Object(_) => {},
            Json::Null => {},
            _ => return Err(Error::DecodeError("object".to_string())),
        }
        if !text_fits(j, "first") {
            return Err(Error::DecodeError("first".to_string()));
        }
        let f_first = text_or_empty_field(j, "first");
        if !text_fits(j, "middle") {
            return Err(Error::DecodeError("middle".to_string()));
        }
        let f_middle = text_field(j, "middle");
        if !text_fits(j, "last") {
            return Err(Error::DecodeError("last".to_string()));
        }
        let f_last = text_field(j, "last");
        if !text_fits(j, "full") {
            return Err(Error::DecodeError("full".to_string()));
        }
        let f_full = text_or_empty_field(j, "full");
        if !text_fits(j, "native") {
            return Err(Error::DecodeError("native".to_string()));
        }
        let f_native = text_field(j, "native");
        if !strings_fits(j, "alternative") {
            return Err(Error::DecodeError("alternative".to_string()));
        }
        let f_alternative = match strings_field(j, "alternative") {
            Some(v) => v,
            None => Vec::new(),
        };
        if !strings_fits(j, "alternativeSpoiler") {
            return Err(Error::DecodeError("alternativeSpoiler".to_string()));
        }
        let f_alternative_spoiler = strings_field(j, "alternativeSpoiler");
        if !text_fits(j, "userPreferred") {
            return Err(Error::DecodeError("userPreferred".to_string()));
        }
        let f_user_preferred = text_field(j, "userPreferred");
        Ok(Name {
            first: f_first,
            middle: f_middle,
            last: f_last,
            full: f_full,
            native: f_native,
            alternative: f_alternative,
            alternative_spoiler: f_alternative_spoiler,
            user_preferred: f_user_preferred,
        })
    }

    /// Decodes the member `key` of `j`; an absent member decodes as `null`.
    pub fn from_member(j: &Json, key: &str) -> (r: Result<Name, Error>)
        ensures
            r is Ok <==> Name::fits(field(*j, key@)),
            r matches Ok(x) ==> x.matches_json(member_or_null(*j, key@)),
            r matches Err(e) ==> e is DecodeError,
    {
        match get(j, key) {
            Some(v) => match Name::from_json(v) {
                Ok(x) => Ok(x),
                Err(_) => Err(Error::DecodeError(key.to_string())),
            },
            None => Name::from_json(&Json::Null),
        }
    }

    /// Decodes the member `key` of `j` when it is an object; none when it is
    /// absent or `null`.
    pub fn from_optional_member(j: &Json, key: &str) -> (r: Result<Option<Name>, Error>)
        ensures
            r is Ok <==> Name::fits(field(*j, key@)),
            r matches Ok(o) ==> match object_of(field(*j, key@)) {
                Some(x) => o matches Some(y) && y.matches_json(x),
                None => o is None,
            },
            r matches Err(e) ==> e is DecodeError,
    {
        match get(j, key) {
            Some(v) => match v {
                Json::Object(_) => match Name::from_json(v) {
                    Ok(x) => Ok(Some(x)),
                    Err(_) => Err(Error::DecodeError(key.to_string())),
                },
                Json::Null => Ok(None),
                _ => Err(Error::DecodeError(key.to_string())),
            },
            None => Ok(None),
        }
    }

    /// Whether each of `l` is what the item at its index decodes to.
    pub open spec fn seq_matches(l: Seq<Name>, items: Seq<Json>) -> bool {
        &&& l.len() == items.len()
        &&& forall|i: int| 0 <= i < items.len() ==> (#[trigger] l[i]).matches_json(items[i])
    }

    /// Decodes the member `key` of `j` as a list of objects; none when it is
    /// absent or `null`.
    pub fn list_field(j: &Json, key: &str) -> (r: Result<Option<Vec<Name>>, Error>)
        ensures
            r is Ok <==> Name::fits_list(field(*j, key@)),
            r matches Ok(o) ==> match field(*j, key@) {
                Some(Json::Array(items)) => o matches Some(l) && Name::seq_matches(l@, items@),
                _ => o is None,
            },
            r matches Err(e) ==> e is DecodeError,
    {
        match get(j, key) {
            Some(Json::Array(items)) => {
                let mut out: Vec<Name> = Vec::new();
                let mut i: usize = 0;
                while i < items.len()
                    invariant
                        i <= items@.len(),
                        field(*j, key@) == Some(Json::Array(*items)),
                        out@.len() == i,
                        forall|k: int| 0 <= k < i ==> (#[trigger] out@[k]).matches_json(items@[k]),
                        forall|k: int| 0 <= k < i ==> Name::item_ok(#[trigger] items@[k]),
                    decreases items.len() - i,
                {
                    match &items[i] {
                        Json::Object(_) => match Name::from_json(&items[i]) {
                            Ok(x) => out.push(x),
                            Err(_) => {
                                assert(!Name::item_ok(items@[i as int]));
                                assert(!absent(field(*j, key@)));
                                assert(field(*j, key@) matches Some(Json::Array(its)) && its@ == items@);
                                return Err(Error::DecodeError(key.to_string()));
                            },
                        },
                        _ => {
                            assert(!Name::item_ok(items@[i as int]));
                            assert(!absent(field(*j, key@)));
                                assert(field(*j, key@) matches Some(Json::Array(its)) && its@ == items@);
                            return Err(Error::DecodeError(key.to_string()));
                        },
                    }
                    i = i + 1;
                }
                Ok(Some(out))
            },
            Some(Json::Null) => Ok(None),
            None => Ok(None),
            _ => Err(Error::DecodeError(key.to_string())),
        }
    }

    /// Whether two names hold the same decoded values, field by field (strings by
    /// their characters).
    pub open spec fn agrees(self, o: Name) -> bool {
        &&& self.first@ == o.first@
        &&& self.middle == o.middle
        &&& self.last == o.last
        &&& self.full@ == o.full@
        &&& self.native == o.native
        &&& self.alternative@ == o.alternative@
        &&& match (self.alternative_spoiler, o.alternative_spoiler) {
                (Some(x), Some(y)) => x@ == y@,
                (None, None) => true,
                _ => false,
            }
        &&& self.user_preferred == o.user_preferred
    }

    /// Decoding one object twice gives values that agree.
    pub proof fn lemma_decode_agrees(a: Name, b: Name, j: Json)
        requires
            a.matches_json(j),
            b.matches_json(j),
        ensures
            a.agrees(b),
    {
    }

    /// Whether two lists hold values that agree, index by index.
    pub open spec fn seq_agrees(l1: Seq<Name>, l2: Seq<Name>) -> bool {
        &&& l1.len() == l2.len()
        &&& forall|i: int| 0 <= i < l1.len() ==> (#[trigger] l1[i]).agrees(l2[i])
    }

    /// Decoding one array twice gives lists that agree.
    pub proof fn lemma_seq_agrees(l1: Seq<Name>, l2: Seq<Name>, items: Seq<Json>)
        requires
            Name::seq_matches(l1, items),
            Name::seq_matches(l2, items),
        ensures
            Name::seq_agrees(l1, l2),
    {
        assert forall|i: int| 0 <= i < l1.len() implies (#[trigger] l1[i]).agrees(l2[i]) by {
            Name::lemma_decode_agrees(l1[i], l2[i], items[i]);
        }
    }
}

impl Name {
    /// Returns the full name.
    pub fn full(&self) -> (r: String)
        ensures
            r == self.full,
    {
        self.full.clone()
    }
    /// Returns the native name, if any.
    pub fn native(&self) -> (r: Option<String>)
        ensures
            r == self.native,
    {
        copy_text(&self.native)
    }
    /// Returns the alternative names.
    pub fn alternative(&self) -> (r: Vec<String>)
        ensures
            r@ == self.alternative@,
    {
        copy_strings(&self.alternative)
    }
    /// Returns the alternative names that may contain spoilers.
    pub fn spoiler(&self) -> (r: Option<Vec<String>>)
        ensures
            match self.alternative_spoiler {
                Some(a) => r matches Some(v) && v@ == a@,
                None => r is None,
            },
    {
        match &self.alternative_spoiler {
            Some(a) => Some(copy_strings(a)),
            None => None,
        }
    }
    /// Returns the name preferred by the user, if any.
    pub fn user_preferred(&self) -> (r: Option<String>)
        ensures
            r == self.user_preferred,
    {
        copy_text(&self.user_preferred)
    }
}

} // verus!
