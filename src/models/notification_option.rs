//! The `NotificationOption` struct.
use vstd::prelude::*;

use crate::json::{Json, absent, bool_fits, field, fits_bool, fits_text, flag_field, flag_of, get, member_or_null, object_of, object_or_null, text_fits, text_of};
use crate::error::Error;
use crate::models::NotificationType;

verus! {

/// Whether one type of notification is enabled.
#[derive(Debug, Clone, PartialEq, Default)]
pub struct NotificationOption {
    /// The type of the notification.
    pub notification_type: NotificationType,
    /// Whether the notification is enabled.
    pub enabled: bool,
}

impl NotificationOption {
    /// Whether the decoded fields of this notification option are what the object `j` gives;
    /// an absent or `null` member leaves its field unset or empty.
    pub open spec fn matches_json(self, j: Json) -> bool {
        &&& self.notification_type == match text_of(field(j, "type"@)) {
                Some(s) => NotificationType::read_spec(s@),
                None => NotificationType::ActivityMessage,
            }
        &&& self.enabled == flag_of(field(j, "enabled"@))
    }

    /// Whether `j` has the shape of a notification option: an object or `null` whose members
    /// are each absent, `null` or of their expected type.
    pub open spec fn well_typed(j: Json) -> bool {
        &&& object_or_null(j)
        &&& fits_text(field(j, "type"@))
        &&& fits_bool(field(j, "enabled"@))
    }

    /// Whether a member is absent, or has the shape of a notification option.
    pub open spec fn fits(v: Option<Json>) -> bool {
        match v {
            None => true,
            Some(x) => NotificationOption::well_typed(x),
        }
    }

    /// Whether an array item is a notification option object.
    pub open spec fn item_ok(j: Json) -> bool {
        j is Object && NotificationOption::well_typed(j)
    }

    /// Whether a member is absent, `null`, or an array of notification option objects.
    pub open spec fn fits_list(v: Option<Json>) -> bool {
        ||| absent(v)
        ||| (v matches Some(Json::Array(items)) && forall|i: int|
            0 <= i < items@.len() ==> NotificationOption::item_ok(#[trigger] items@[i]))
    }

    /// Decodes a notification option object; a member of the wrong type is a `DecodeError`.
    pub fn from_json(j: &Json) -> (r: Result<NotificationOption, Error>)
        ensures
            r is Ok <==> NotificationOption::well_typed(*j),
            r matches Ok(x) ==> x.matches_json(*j),
            r matches Err(e) ==> e is DecodeError,
    {
        match j {
            Json::Object(_) => {},
            Json::Null => {},
            _ => return Err(Error::DecodeError("object".to_string())),
        }
        if !text_fits(j, "type") {
            return Err(Error::DecodeError("type".to_string()));
        }
        let f_notification_type = match get(j, "type") {
            Some(Json::Str(s)) => NotificationType::from(s.as_str()),
            _ => NotificationType::ActivityMessage,
        };
        if !bool_fits(j, "enabled") {
            return Err(Error::DecodeError("enabled".to_string()));
        }
        let f_enabled = flag_field(j, "enabled");
        Ok(NotificationOption {
            notification_type: f_notification_type,
            enabled: f_enabled,
        })
    }

    /// Decodes the member `key` of `j`; an absent member decodes as `null`.
    pub fn from_member(j: &Json, key: &str) -> (r: Result<NotificationOption, Error>)
        ensures
            r is Ok <==> NotificationOption::fits(field(*j, key@)),
            r matches Ok(x) ==> x.matches_json(member_or_null(*j, key@)),
            r matches Err(e) ==> e is DecodeError,
    {
        match get(j, key) {
            Some(v) => match NotificationOption::from_json(v) {
                Ok(x) => Ok(x),
                Err(_) => Err(Error::DecodeError(key.to_string())),
            },
            None => NotificationOption::from_json(&Json::Null),
        }
    }

    /// Decodes the member `key` of `j` when it is an object; none when it is
    /// absent or `null`.
    pub fn from_optional_member(j: &Json, key: &str) -> (r: Result<Option<NotificationOption>, Error>)
        ensures
            r is Ok <==> NotificationOption::fits(field(*j, key@)),
            r matches Ok(o) ==> match object_of(field(*j, key@)) {
                Some(x) => o matches Some(y) && y.matches_json(x),
                None => o is None,
            },
            r matches Err(e) ==> e is DecodeError,
    {
        match get(j, key) {
            Some(v) => match v {
                Json::Object(_) => match NotificationOption::from_json(v) {
                    Ok(x) => Ok(Some(x)),
                    Err(_) => Err(Error::DecodeError(key.to_string())),
                },
                Json::Null => Ok(None),
                _ => Err(Error::DecodeError(key.to_string())),
            },
            None => Ok(None),
        }
    }

    /// Whether each of `l` is what the item at its index decodes to.
    pub open spec fn seq_matches(l: Seq<NotificationOption>, items: Seq<Json>) -> bool {
        &&& l.len() == items.len()
        &&& forall|i: int| 0 <= i < items.len() ==> (#[trigger] l[i]).matches_json(items[i])
    }

    /// Decodes the member `key` of `j` as a list of objects; none when it is
    /// absent or `null`.
    pub fn list_field(j: &Json, key: &str) -> (r: Result<Option<Vec<NotificationOption>>, Error>)
        ensures
            r is Ok <==> NotificationOption::fits_list(field(*j, key@)),
            r matches Ok(o) ==> match field(*j, key@) {
                Some(Json::Array(items)) => o matches Some(l) && NotificationOption::seq_matches(l@, items@),
                _ => o is None,
            },
            r matches Err(e) ==> e is DecodeError,
    {
        match get(j, key) {
            Some(Json::Array(items)) => {
                let mut out: Vec<NotificationOption> = Vec::new();
                let mut i: usize = 0;
                while i < items.len()
                    invariant
                        i <= items@.len(),
                        field(*j, key@) == Some(Json::Array(*items)),
                        out@.len() == i,
                        forall|k: int| 0 <= k < i ==> (#[trigger] out@[k]).matches_json(items@[k]),
                        forall|k: int| 0 <= k < i ==> NotificationOption::item_ok(#[trigger] items@[k]),
                    decreases items.len() - i,
                {
                    match &items[i] {
                        Json::Object(_) => match NotificationOption::from_json(&items[i]) {
                            Ok(x) => out.push(x),
                            Err(_) => {
                                assert(!NotificationOption::item_ok(items@[i as int]));
                                assert(!absent(field(*j, key@)));
                                assert(field(*j, key@) matches Some(Json::Array(its)) && its@ == items@);
                                return Err(Error::DecodeError(key.to_string()));
                            },
                        },
                        _ => {
                            assert(!NotificationOption::item_ok(items@[i as int]));
                            assert(!absent(field(*j, key@)));
                                assert(field(*j, key@) matches Some(Json::Array(its)) && its@ == items@);
                            return Err(Error::DecodeError(key.to_string()));
                        },
                    }
                    i = i + 1;
                }
                Ok(Some(out))
            },
            Some(Json::Null) => Ok(None),
            None => Ok(None),
            _ => Err(Error::DecodeError(key.to_string())),
        }
    }

    /// Whether two notification options hold the same decoded values, field by field (strings by
    /// their characters).
    pub open spec fn agrees(self, o: NotificationOption) -> bool {
        &&& self.notification_type == o.notification_type
        &&& self.enabled == o.enabled
    }

    /// Decoding one object twice gives values that agree.
    pub proof fn lemma_decode_agrees(a: NotificationOption, b: NotificationOption, j: Json)
        requires
            a.matches_json(j),
            b.matches_json(j),
        ensures
            a.agrees(b),
    {
    }

    /// Whether two lists hold values that agree, index by index.
    pub open spec fn seq_agrees(l1: Seq<NotificationOption>, l2: Seq<NotificationOption>) -> bool {
        &&& l1.len() == l2.len()
        &&& forall|i: int| 0 <= i < l1.len() ==> (#[trigger] l1[i]).agrees(l2[i])
    }

    /// Decoding one array twice gives lists that agree.
    pub proof fn lemma_seq_agrees(l1: Seq<NotificationOption>, l2: Seq<NotificationOption>, items: Seq<Json>)
        requires
            NotificationOption::seq_matches(l1, items),
            NotificationOption::seq_matches(l2, items),
        ensures
            NotificationOption::seq_agrees(l1, l2),
    {
        assert forall|i: int| 0 <= i < l1.len() implies (#[trigger] l1[i]).agrees(l2[i]) by {
            NotificationOption::lemma_decode_agrees(l1[i], l2[i], items[i]);
        }
    }
}

} // verus!
