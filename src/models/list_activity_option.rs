//! The `ListActivityOption` struct.
use vstd::prelude::*;

use crate::json::{Json, absent, bool_fits, field, fits_bool, fits_text, flag_field, flag_of, get, member_or_null, object_of, object_or_null, text_fits, text_of};
use crate::error::Error;
use crate::models::Status;

verus! {

/// Whether list activity of one status is disabled.
#[derive(Debug, Clone, PartialEq, Default)]
pub struct ListActivityOption {
    /// The status of the list activity.
    pub status: Status,
    /// Whether the list activity is disabled.
    pub disabled: bool,
}

impl ListActivityOption {
    /// Whether the decoded fields of this list activity option are what the object `j` gives;
    /// an absent or `null` member leaves its field unset or empty.
    pub open spec fn matches_json(self, j: Json) -> bool {
        &&& self.status == match text_of(field(j, "type"@)) {
                Some(s) => Status::read_spec(s@),
                None => Status::NotYetReleased,
            }
        &&& self.disabled == flag_of(field(j, "disabled"@))
    }

    /// Whether `j` has the shape of a list activity option: an object or `null` whose members
    /// are each absent, `null` or of their expected type.
    pub open spec fn well_typed(j: Json) -> bool {
        &&& object_or_null(j)
        &&& fits_text(field(j, "type"@))
        &&& fits_bool(field(j, "disabled"@))
    }

    /// Whether a member is absent, or has the shape of a list activity option.
    pub open spec fn fits(v: Option<Json>) -> bool {
        match v {
            None => true,
            Some(x) => ListActivityOption::well_typed(x),
        }
    }

    /// Whether an array item is a list activity option object.
    pub open spec fn item_ok(j: Json) -> bool {
        j is Object && ListActivityOption::well_typed(j)
    }

    /// Whether a member is absent, `null`, or an array of list activity option objects.
    pub open spec fn fits_list(v: Option<Json>) -> bool {
        ||| absent(v)
        ||| (v matches Some(Json::Array(items)) && forall|i: int|
            0 <= i < items@.len() ==> ListActivityOption::item_ok(#[trigger] items@[i]))
    }

    /// Decodes a list activity option object; a member of the wrong type is a `DecodeError`.
    pub fn from_json(j: &Json) -> (r: Result<ListActivityOption, Error>)
        ensures
            r is Ok <==> ListActivityOption::well_typed(*j),
            r matches Ok(x) ==> x.matches_json(*j),
            r matches Err(e) ==> e is DecodeError,
    {
        match j {
            Json::Object(_) => {},
            Json::Null => {},
            _ => return Err(Error::DecodeError("object".to_string())),
        }
        if !text_fits(j, "type") {
            return Err(Error::DecodeError("type".to_string()));
        }
        let f_status = match get(j, "type") {
            Some(Json::Str(s)) => Status::from(s.as_str()),
            _ => Status::NotYetReleased,
        };
        if !bool_fits(j, "disabled") {
            return Err(Error::DecodeError("disabled".to_string()));
        }
        let f_disabled = flag_field(j, "disabled");
        Ok(ListActivityOption {
            status: f_status,
            disabled: f_disabled,
        })
    }

    /// Decodes the member `key` of `j`; an absent member decodes as `null`.
    pub fn from_member(j: &Json, key: &str) -> (r: Result<ListActivityOption, Error>)
        ensures
            r is Ok <==> ListActivityOption::fits(field(*j, key@)),
            r matches Ok(x) ==> x.matches_json(member_or_null(*j, key@)),
            r matches Err(e) ==> e is DecodeError,
    {
        match get(j, key) {
            Some(v) => match ListActivityOption::from_json(v) {
                Ok(x) => Ok(x),
                Err(_) => Err(Error::DecodeError(key.to_string())),
            },
            None => ListActivityOption::from_json(&Json::Null),
        }
    }

    /// Decodes the member `key` of `j` when it is an object; none when it is
    /// absent or `null`.
    pub fn from_optional_member(j: &Json, key: &str) -> (r: Result<Option<ListActivityOption>, Error>)
        ensures
            r is Ok <==> ListActivityOption::fits(field(*j, key@)),
            r matches Ok(o) ==> match object_of(field(*j, key@)) {
                Some(x) => o matches Some(y) && y.matches_json(x),
                None => o is None,
            },
            r matches Err(e) ==> e is DecodeError,
    {
        match get(j, key) {
            Some(v) => match v {
                Json::Object(_) => match ListActivityOption::from_json(v) {
                    Ok(x) => Ok(Some(x)),
                    Err(_) => Err(Error::DecodeError(key.to_string())),
                },
                Json::Null => Ok(None),
                _ => Err(Error::DecodeError(key.to_string())),
            },
            None => Ok(None),
        }
    }

    /// Whether each of `l` is what the item at its index decodes to.
    pub open spec fn seq_matches(l: Seq<ListActivityOption>, items: Seq<Json>) -> bool {
        &&& l.len() == items.len()
        &&& forall|i: int| 0 <= i < items.len() ==> (#[trigger] l[i]).matches_json(items[i])
    }

    /// Decodes the member `key` of `j` as a list of objects; none when it is
    /// absent or `null`.
    pub fn list_field(j: &Json, key: &str) -> (r: Result<Option<Vec<ListActivityOption>>, Error>)
        ensures
            r is Ok <==> ListActivityOption::fits_list(field(*j, key@)),
            r matches Ok(o) ==> match field(*j, key@) {
                Some(Json::Array(items)) => o matches Some(l) && ListActivityOption::seq_matches(l@, items@),
                _ => o is None,
            },
            r matches Err(e) ==> e is DecodeError,
    {
        match get(j, key) {
            Some(Json::Array(items)) => {
                let mut out: Vec<ListActivityOption> = Vec::new();
                let mut i: usize = 0;
                while i < items.len()
                    invariant
                        i <= items@.len(),
                        field(*j, key@) == Some(Json::Array(*items)),
                        out@.len() == i,
                        forall|k: int| 0 <= k < i ==> (#[trigger] out@[k]).matches_json(items@[k]),
                        forall|k: int| 0 <= k < i ==> ListActivityOption::item_ok(#[trigger] items@[k]),
                    decreases items.len() - i,
                {
                    match &items[i] {
                        Json::Object(_) => match ListActivityOption::from_json(&items[i]) {
                            Ok(x) => out.push(x),
                            Err(_) => {
                                assert(!ListActivityOption::item_ok(items@[i as int]));
                                assert(!absent(field(*j, key@)));
                                assert(field(*j, key@) matches Some(Json::Array(its)) && its@ == items@);
                                return Err(Error::DecodeError(key.to_string()));
                            },
                        },
                        _ => {
                            assert(!ListActivityOption::item_ok(items@[i as int]));
                            assert(!absent(field(*j, key@)));
                                assert(field(*j, key@) matches Some(Json::Array(its)) && its@ == items@);
                            return Err(Error::DecodeError(key.to_string()));
                        },
                    }
                    i = i + 1;
                }
                Ok(Some(out))
            },
            Some(Json::Null) => Ok(None),
            None => Ok(None),
            _ => Err(Error::DecodeError(key.to_string())),
        }
    }

    /// Whether two list activity options hold the same decoded values, field by field (strings by
    /// their characters).
    pub open spec fn agrees(self, o: ListActivityOption) -> bool {
        &&& self.status == o.status
        &&& self.disabled == o.disabled
    }

    /// Decoding one object twice gives values that agree.
    pub proof fn lemma_decode_agrees(a: ListActivityOption, b: ListActivityOption, j: Json)
        requires
            a.matches_json(j),
            b.matches_json(j),
        ensures
            a.agrees(b),
    {
    }

    /// Whether two lists hold values that agree, index by index.
    pub open spec fn seq_agrees(l1: Seq<ListActivityOption>, l2: Seq<ListActivityOption>) -> bool {
        &&& l1.len() == l2.len()
        &&& forall|i: int| 0 <= i < l1.len() ==> (#[trigger] l1[i]).agrees(l2[i])
    }

    /// Decoding one array twice gives lists that agree.
    pub proof fn lemma_seq_agrees(l1: Seq<ListActivityOption>, l2: Seq<ListActivityOption>, items: Seq<Json>)
        requires
            ListActivityOption::seq_matches(l1, items),
            ListActivityOption::seq_matches(l2, items),
        ensures
            ListActivityOption::seq_agrees(l1, l2),
    {
        assert forall|i: int| 0 <= i < l1.len() implies (#[trigger] l1[i]).agrees(l2[i]) by {
            ListActivityOption::lemma_decode_agrees(l1[i], l2[i], items[i]);
        }
    }
}

} // verus!
