//! The `Title` struct.
use vstd::prelude::*;

use crate::json::{Json, absent, field, fits_text, get, member_or_null, object_of, object_or_null, text_field, text_fits, text_of, text_or_empty, text_or_empty_field};
use crate::error::Error;

verus! {

/// The title of a media item in several languages. The native title is always present.
#[derive(Debug, Clone, PartialEq, Default)]
pub struct Title {
    /// The title in romaji (Latin script).
    pub romaji: Option<String>,
    /// The title in English.
    pub english: Option<String>,
    /// The title in the native language.
    pub native: String,
    /// The title preferred by the user.
    pub user_preferred: Option<String>,
}

impl Title {
    /// Whether the decoded fields of this title are what the object `j` gives;
    /// an absent or `null` member leaves its field unset or empty.
    pub open spec fn matches_json(self, j: Json) -> bool {
        &&& self.romaji == text_of(field(j, "romaji"@))
        &&& self.english == text_of(field(j, "english"@))
        &&& self.native@ == text_or_empty(field(j, "native"@))
        &&& self.user_preferred == text_of(field(j, "userPreferred"@))
    }

    /// Whether `j` has the shape of a title: an object or `null` whose members
    /// are each absent, `null` or of their expected type.
    pub open spec fn well_typed(j: Json) -> bool {
        &&& object_or_null(j)
        &&& fits_text(field(j, "romaji"@))
        &&& fits_text(field(j, "english"@))
        &&& fits_text(field(j, "native"@))
        &&& fits_text(field(j, "userPreferred"@))
    }

    /// Whether a member is absent, or has the shape of a title.
    pub open spec fn fits(v: Option<Json>) -> bool {
        match v {
            None => true,
            Some(x) => Title::well_typed(x),
        }
    }

    /// Whether an array item is a title object.
    pub open spec fn item_ok(j: Json) -> bool {
        j is Object && Title::well_typed(j)
    }

    /// Whether a member is absent, `null`, or an array of title objects.
    pub open spec fn fits_list(v: Option<Json>) -> bool {
        ||| absent(v)
        ||| (v matches Some(Json::Array(items)) && forall|i: int|
            0 <= i < items@.len() ==> Title::item_ok(#[trigger] items@[i]))
    }

    /// Decodes a title object; a member of the wrong type is a `DecodeError`.
    pub fn from_json(j: &Json) -> (r: Result<Title, Error>)
        ensures
            r is Ok <==> Title::well_typed(*j),
            r matches Ok(x) ==> x.matches_json(*j),
            r matches Err(e) ==> e is DecodeError,
    {
        match j {
            Json::Object(_) => {},
            Json::Null => {},
            _ => return Err(Error::DecodeError("object".to_string())),
        }
        if !text_fits(j, "romaji") {
            return Err(Error::DecodeError("romaji".to_string()));
        }
        let f_romaji = text_field(j, "romaji");
        if !text_fits(j, "english") {
            return Err(Error::DecodeError("english".to_string()));
        }
        let f_english = text_field(j, "english");
        if !text_fits(j, "native") {
            return Err(Error::DecodeError("native".to_string()));
        }
        let f_native = text_or_empty_field(j, "native");
        if !text_fits(j, "userPreferred") {
            return Err(Error::DecodeError("userPreferred".to_string()));
        }
        let f_user_preferred = text_field(j, "userPreferred");
        Ok(Title {
            romaji: f_romaji,
            english: f_english,
            native: f_native,
            user_preferred: f_user_preferred,
        })
    }

    /// Decodes the member `key` of `j`; an absent member decodes as `null`.
    pub fn from_member(j: &Json, key: &str) -> (r: Result<Title, Error>)
        ensures
            r is Ok <==> Title::fits(field(*j, key@)),
            r matches Ok(x) ==> x.matches_json(member_or_null(*j, key@)),
            r matches Err(e) ==> e is DecodeError,
    {
        match get(j, key) {
            Some(v) => match Title::from_json(v) {
                Ok(x) => Ok(x),
                Err(_) => Err(Error::DecodeError(key.to_string())),
            },
            None => Title::from_json(&Json::Null),
        }
    }

    /// Decodes the member `key` of `j` when it is an object; none when it is
    /// absent or `null`.
    pub fn from_optional_member(j: &Json, key: &str) -> (r: Result<Option<Title>, Error>)
        ensures
            r is Ok <==> Title::fits(field(*j, key@)),
            r matches Ok(o) ==> match object_of(field(*j, key@)) {
                Some(x) => o matches Some(y) && y.matches_json(x),
                None => o is None,
            },
            r matches Err(e) ==> e is DecodeError,
    {
        match get(j, key) {
            Some(v) => match v {
                Json::Object(_) => match Title::from_json(v) {
                    Ok(x) => Ok(Some(x)),
                    Err(_) => Err(Error::DecodeError(key.to_string())),
                },
                Json::Null => Ok(None),
                _ => Err(Error::DecodeError(key.to_string())),
            },
            None => Ok(None),
        }
    }

    /// Whether each of `l` is what the item at its index decodes to.
    pub open spec fn seq_matches(l: Seq<Title>, items: Seq<Json>) -> bool {
        &&& l.len() == items.len()
        &&& forall|i: int| 0 <= i < items.len() ==> (#[trigger] l[i]).matches_json(items[i])
    }

    /// Decodes the member `key` of `j` as a list of objects; none when it is
    /// absent or `null`.
    pub fn list_field(j: &Json, key: &str) -> (r: Result<Option<Vec<Title>>, Error>)
        ensures
            r is Ok <==> Title::fits_list(field(*j, key@)),
            r matches Ok(o) ==> match field(*j, key@) {
                Some(Json::Array(items)) => o matches Some(l) && Title::seq_matches(l@, items@),
                _ => o is None,
            },
            r matches Err(e) ==> e is DecodeError,
    {
        match get(j, key) {
            Some(Json::Array(items)) => {
                let mut out: Vec<Title> = Vec::new();
                let mut i: usize = 0;
                while i < items.len()
                    invariant
                        i <= items@.len(),
                        field(*j, key@) == Some(Json::Array(*items)),
                        out@.len() == i,
                        forall|k: int| 0 <= k < i ==> (#[trigger] out@[k]).matches_json(items@[k]),
                        forall|k: int| 0 <= k < i ==> Title::item_ok(#[trigger] items@[k]),
                    decreases items.len() - i,
                {
                    match &items[i] {
                        Json::Object(_) => match Title::from_json(&items[i]) {
                            Ok(x) => out.push(x),
                            Err(_) => {
                                assert(!Title::item_ok(items@[i as int]));
                                assert(!absent(field(*j, key@)));
                                assert(field(*j, key@) matches Some(Json::Array(its)) && its@ == items@);
                                return Err(Error::DecodeError(key.to_string()));
                            },
                        },
                        _ => {
                            assert(!Title::item_ok(items@[i as int]));
                            assert(!absent(field(*j, key@)));
                                assert(field(*j, key@) matches Some(Json::Array(its)) && its@ == items@);
                            return Err(Error::DecodeError(key.to_string()));
                        },
                    }
                    i = i + 1;
                }
                Ok(Some(out))
            },
            Some(Json::Null) => Ok(None),
            None => Ok(None),
            _ => Err(Error::DecodeError(key.to_string())),
        }
    }

    /// Whether two titles hold the same decoded values, field by field (strings by
    /// their characters).
    pub open spec fn agrees(self, o: Title) -> bool {
        &&& self.romaji == o.romaji
        &&& self.english == o.english
        &&& self.native@ == o.native@
        &&& self.user_preferred == o.user_preferred
    }

    /// Decoding one object twice gives values that agree.
    pub proof fn lemma_decode_agrees(a: Title, b: Title, j: Json)
        requires
            a.matches_json(j),
            b.matches_json(j),
        ensures
            a.agrees(b),
    {
    }

    /// Whether two lists hold values that agree, index by index.
    pub open spec fn seq_agrees(l1: Seq<Title>, l2: Seq<Title>) -> bool {
        &&& l1.len() == l2.len()
        &&& forall|i: int| 0 <= i < l1.len() ==> (#[trigger] l1[i]).agrees(l2[i])
    }

    /// Decoding one array twice gives lists that agree.
    pub proof fn lemma_seq_agrees(l1: Seq<Title>, l2: Seq<Title>, items: Seq<Json>)
        requires
            Title::seq_matches(l1, items),
            Title::seq_matches(l2, items),
        ensures
            Title::seq_agrees(l1, l2),
    {
        assert forall|i: int| 0 <= i < l1.len() implies (#[trigger] l1[i]).agrees(l2[i]) by {
            Title::lemma_decode_agrees(l1[i], l2[i], items[i]);
        }
    }
}

impl Title {
    /// A variant if present, else the native title.
    pub open spec fn or_native(self, v: Option<String>) -> Seq<char> {
        match v {
            Some(s) => s@,
            None => self.native@,
        }
    }
    /// Returns the title in romaji, or the native title when there is none.
    pub fn romaji(&self) -> (r: &str)
        ensures
            r@ == self.or_native(self.romaji),
    {
        match &self.romaji {
            Some(s) => s.as_str(),
            None => self.native.as_str(),
        }
    }
    /// Returns the title in English, or the native title when there is none.
    pub fn english(&self) -> (r: &str)
        ensures
            r@ == self.or_native(self.english),
    {
        match &self.english {
            Some(s) => s.as_str(),
            None => self.native.as_str(),
        }
    }
    /// Returns the title in the native language.
    pub fn native(&self) -> (r: &str)
        ensures
            r@ == self.native@,
    {
        self.native.as_str()
    }
    /// Returns the title preferred by the user, or the native title when there is none.
    pub fn user_preferred(&self) -> (r: &str)
        ensures
            r@ == self.or_native(self.user_preferred),
    {
        match &self.user_preferred {
            Some(s) => s.as_str(),
            None => self.native.as_str(),
        }
    }
    /// Whether every variant is absent and the native title is empty.
    pub open spec fn is_empty_spec(self) -> bool {
        self.romaji is None && self.english is None && self.native@.len() == 0
            && self.user_preferred is None
    }
    /// Checks whether the title is empty: no variant present and an empty native title.
    pub fn is_empty(&self) -> (r: bool)
        ensures
            r == self.is_empty_spec(),
    {
        self.romaji.is_none() && self.english.is_none() && self.native.as_str().unicode_len() == 0
            && self.user_preferred.is_none()
    }
}

/// A title converts to its native text.
impl From<Title> for String {
    fn from(title: Title) -> String {
        title.native
    }
}

impl vstd::std_specs::convert::FromSpecImpl<Title> for String {
    open spec fn obeys_from_spec() -> bool {
        true
    }

    open spec fn from_spec(v: Title) -> String {
        v.native
    }
}

} // verus!
