//! The `Options` struct.
use vstd::prelude::*;

use crate::json::{Json, absent, bool_fits, field, fits_bool, fits_int, fits_text, flag_field, flag_of, get, i32_field, i32_of, int_fits, member_or_null, object_of, object_or_null, text_field, text_fits, text_of};
use crate::error::Error;
use crate::models::Color;
use crate::models::ListActivityOption;
use crate::models::NotificationOption;
use crate::models::UserStaffNameLanguage;
use crate::models::UserTitleLanguage;
use crate::text::or_else;

verus! {

/// The settings of a user.
#[derive(Debug, Clone, PartialEq, Default)]
pub struct Options {
    /// The language of titles.
    pub title_language: Option<UserTitleLanguage>,
    /// Whether adult content is shown.
    pub display_adult_content: bool,
    /// Whether airing notifications are sent.
    pub airing_notifications: bool,
    /// The profile color.
    pub profile_color: Color,
    /// The notification options.
    pub notifications_options: Option<Vec<NotificationOption>>,
    /// The time zone.
    pub timezone: Option<String>,
    /// The activity merge time, in minutes.
    pub activity_merge_time: i32,
    /// The language of staff names.
    pub staff_name_language: UserStaffNameLanguage,
    /// Whether only followed users may send messages.
    pub restrict_messages_to_following: bool,
    /// The list activity that is disabled.
    pub disabled_list_activity: Option<Vec<ListActivityOption>>,
}

impl Options {
    /// Whether the decoded fields of this user options are what the object `j` gives;
    /// an absent or `null` member leaves its field unset or empty.
    pub open spec fn matches_json(self, j: Json) -> bool {
        &&& self.title_language == match text_of(field(j, "titleLanguage"@)) {
                Some(s) => Some(UserTitleLanguage::read_spec(s@)),
                None => None,
            }
        &&& self.display_adult_content == flag_of(field(j, "displayAdultContent"@))
        &&& self.airing_notifications == flag_of(field(j, "airingNotifications"@))
        &&& match text_of(field(j, "profileColor"@)) {
                Some(s) => Color::read_spec(self.profile_color, s@),
                None => self.profile_color == Color::Purple,
            }
        &&& match field(j, "notificationOptions"@) {
                Some(Json::Array(items)) => self.notifications_options matches Some(l) && NotificationOption::seq_matches(l@, items@),
                _ => self.notifications_options is None,
            }
        &&& self.timezone == text_of(field(j, "timezone"@))
        &&& self.activity_merge_time == or_else(i32_of(field(j, "activityMergeTime"@)), 0i32)
        &&& self.staff_name_language == match text_of(field(j, "staffNameLanguage"@)) {
                Some(s) => UserStaffNameLanguage::read_spec(s@),
                None => UserStaffNameLanguage::Romaji,
            }
        &&& self.restrict_messages_to_following == flag_of(field(j, "restrictMessagesToFollowing"@))
        &&& match field(j, "disabledListActivity"@) {
                Some(Json::Array(items)) => self.disabled_list_activity matches Some(l) && ListActivityOption::seq_matches(l@, items@),
                _ => self.disabled_list_activity is None,
            }
    }

    /// Whether `j` has the shape of a user options: an object or `null` whose members
    /// are each absent, `null` or of their expected type.
    pub open spec fn well_typed(j: Json) -> bool {
        &&& object_or_null(j)
        &&& fits_text(field(j, "titleLanguage"@))
        &&& fits_bool(field(j, "displayAdultContent"@))
        &&& fits_bool(field(j, "airingNotifications"@))
        &&& fits_text(field(j, "profileColor"@))
        &&& NotificationOption::fits_list(field(j, "notificationOptions"@))
        &&& fits_text(field(j, "timezone"@))
        &&& fits_int(field(j, "activityMergeTime"@), i32::MIN as int, i32::MAX as int)
        &&& fits_text(field(j, "staffNameLanguage"@))
        &&& fits_bool(field(j, "restrictMessagesToFollowing"@))
        &&& ListActivityOption::fits_list(field(j, "disabledListActivity"@))
    }

    /// Whether a member is absent, or has the shape of a user options.
    pub open spec fn fits(v: Option<Json>) -> bool {
        match v {
            None => true,
            Some(x) => Options::well_typed(x),
        }
    }

    /// Whether an array item is a user options object.
    pub open spec fn item_ok(j: Json) -> bool {
        j is Object && Options::well_typed(j)
    }

    /// Whether a member is absent, `null`, or an array of user options objects.
    pub open spec fn fits_list(v: Option<Json>) -> bool {
        ||| absent(v)
        ||| (v matches Some(Json::Array(items)) && forall|i: int|
            0 <= i < items@.len() ==> Options::item_ok(#[trigger] items@[i]))
    }

    /// Decodes a user options object; a member of the wrong type is a `DecodeError`.
    pub fn from_json(j: &Json) -> (r: Result<Options, Error>)
        ensures
            r is Ok <==> Options::well_typed(*j),
            r matches Ok(x) ==> x.matches_json(*j),
            r matches Err(e) ==> e is DecodeError,
    {
        match j {
            Json::Object(_) => {},
            Json::Null => {},
            _ => return Err(Error::DecodeError("object".to_string())),
        }
        if !text_fits(j, "titleLanguage") {
            return Err(Error::DecodeError("titleLanguage".to_string()));
        }
        let f_title_language = match get(j, "titleLanguage") {
            Some(Json::Str(s)) => Some(UserTitleLanguage::from(s.as_str())),
            _ => None,
        };
        if !bool_fits(j, "displayAdultContent") {
            return Err(Error::DecodeError("displayAdultContent".to_string()));
        }
        let f_display_adult_content = flag_field(j, "displayAdultContent");
        if !bool_fits(j, "airingNotifications") {
            return Err(Error::DecodeError("airingNotifications".to_string()));
        }
        let f_airing_notifications = flag_field(j, "airingNotifications");
        if !text_fits(j, "profileColor") {
            return Err(Error::DecodeError("profileColor".to_string()));
        }
        let f_profile_color = match get(j, "profileColor") {
            Some(Json::Str(s)) => Color::from_wire(s.as_str()),
            _ => Color::Purple,
        };
        let f_notifications_options = match NotificationOption::list_field(j, "notificationOptions") {
            Ok(v) => v,
            Err(e) => return Err(e),
        };
        if !text_fits(j, "timezone") {
            return Err(Error::DecodeError("timezone".to_string()));
        }
        let f_timezone = text_field(j, "timezone");
        if !int_fits(j, "activityMergeTime", i32::MIN as i128, i32::MAX as i128) {
            return Err(Error::DecodeError("activityMergeTime".to_string()));
        }
        let f_activity_merge_time = match i32_field(j, "activityMergeTime") {
            Some(v) => v,
            None => 0,
        };
        if !text_fits(j, "staffNameLanguage") {
            return Err(Error::DecodeError("staffNameLanguage".to_string()));
        }
        let f_staff_name_language = match get(j, "staffNameLanguage") {
            Some(Json::Str(s)) => UserStaffNameLanguage::from(s.as_str()),
            _ => UserStaffNameLanguage::Romaji,
        };
        if !bool_fits(j, "restrictMessagesToFollowing") {
            return Err(Error::DecodeError("restrictMessagesToFollowing".to_string()));
        }
        let f_restrict_messages_to_following = flag_field(j, "restrictMessagesToFollowing");
        let f_disabled_list_activity = match ListActivityOption::list_field(j, "disabledListActivity") {
            Ok(v) => v,
            Err(e) => return Err(e),
        };
        Ok(Options {
            title_language: f_title_language,
            display_adult_content: f_display_adult_content,
            airing_notifications: f_airing_notifications,
            profile_color: f_profile_color,
            notifications_options: f_notifications_options,
            timezone: f_timezone,
            activity_merge_time: f_activity_merge_time,
            staff_name_language: f_staff_name_language,
            restrict_messages_to_following: f_restrict_messages_to_following,
            disabled_list_activity: f_disabled_list_activity,
        })
    }

    /// Decodes the member `key` of `j`; an absent member decodes as `null`.
    pub fn from_member(j: &Json, key: &str) -> (r: Result<Options, Error>)
        ensures
            r is Ok <==> Options::fits(field(*j, key@)),
            r matches Ok(x) ==> x.matches_json(member_or_null(*j, key@)),
            r matches Err(e) ==> e is DecodeError,
    {
        match get(j, key) {
            Some(v) => match Options::from_json(v) {
                Ok(x) => Ok(x),
                Err(_) => Err(Error::DecodeError(key.to_string())),
            },
            None => Options::from_json(&Json::Null),
        }
    }

    /// Decodes the member `key` of `j` when it is an object; none when it is
    /// absent or `null`.
    pub fn from_optional_member(j: &Json, key: &str) -> (r: Result<Option<Options>, Error>)
        ensures
            r is Ok <==> Options::fits(field(*j, key@)),
            r matches Ok(o) ==> match object_of(field(*j, key@)) {
                Some(x) => o matches Some(y) && y.matches_json(x),
                None => o is None,
            },
            r matches Err(e) ==> e is DecodeError,
    {
        match get(j, key) {
            Some(v) => match v {
                Json::Object(_) => match Options::from_json(v) {
                    Ok(x) => Ok(Some(x)),
                    Err(_) => Err(Error::DecodeError(key.to_string())),
                },
                Json::Null => Ok(None),
                _ => Err(Error::DecodeError(key.to_string())),
            },
            None => Ok(None),
        }
    }

    /// Whether each of `l` is what the item at its index decodes to.
    pub open spec fn seq_matches(l: Seq<Options>, items: Seq<Json>) -> bool {
        &&& l.len() == items.len()
        &&& forall|i: int| 0 <= i < items.len() ==> (#[trigger] l[i]).matches_json(items[i])
    }

    /// Decodes the member `key` of `j` as a list of objects; none when it is
    /// absent or `null`.
    pub fn list_field(j: &Json, key: &str) -> (r: Result<Option<Vec<Options>>, Error>)
        ensures
            r is Ok <==> Options::fits_list(field(*j, key@)),
            r matches Ok(o) ==> match field(*j, key@) {
                Some(Json::Array(items)) => o matches Some(l) && Options::seq_matches(l@, items@),
                _ => o is None,
            },
            r matches Err(e) ==> e is DecodeError,
    {
        match get(j, key) {
            Some(Json::Array(items)) => {
                let mut out: Vec<Options> = Vec::new();
                let mut i: usize = 0;
                while i < items.len()
                    invariant
                        i <= items@.len(),
                        field(*j, key@) == Some(Json::Array(*items)),
                        out@.len() == i,
                        forall|k: int| 0 <= k < i ==> (#[trigger] out@[k]).matches_json(items@[k]),
                        forall|k: int| 0 <= k < i ==> Options::item_ok(#[trigger] items@[k]),
                    decreases items.len() - i,
                {
                    match &items[i] {
                        Json::Object(_) => match Options::from_json(&items[i]) {
                            Ok(x) => out.push(x),
                            Err(_) => {
                                assert(!Options::item_ok(items@[i as int]));
                                assert(!absent(field(*j, key@)));
                                assert(field(*j, key@) matches Some(Json::Array(its)) && its@ == items@);
                                return Err(Error::DecodeError(key.to_string()));
                            },
                        },
                        _ => {
                            assert(!Options::item_ok(items@[i as int]));
                            assert(!absent(field(*j, key@)));
                                assert(field(*j, key@) matches Some(Json::Array(its)) && its@ == items@);
                            return Err(Error::DecodeError(key.to_string()));
                        },
                    }
                    i = i + 1;
                }
                Ok(Some(out))
            },
            Some(Json::Null) => Ok(None),
            None => Ok(None),
            _ => Err(Error::DecodeError(key.to_string())),
        }
    }

    /// Whether two user optionss hold the same decoded values, field by field (strings by
    /// their characters).
    pub open spec fn agrees(self, o: Options) -> bool {
        &&& self.title_language == o.title_language
        &&& self.display_adult_content == o.display_adult_content
        &&& self.airing_notifications == o.airing_notifications
        &&& Color::same(self.profile_color, o.profile_color)
        &&& match (self.notifications_options, o.notifications_options) {
                (Some(x), Some(y)) => NotificationOption::seq_agrees(x@, y@),
                (None, None) => true,
                _ => false,
            }
        &&& self.timezone == o.timezone
        &&& self.activity_merge_time == o.activity_merge_time
        &&& self.staff_name_language == o.staff_name_language
        &&& self.restrict_messages_to_following == o.restrict_messages_to_following
        &&& match (self.disabled_list_activity, o.disabled_list_activity) {
                (Some(x), Some(y)) => ListActivityOption::seq_agrees(x@, y@),
                (None, None) => true,
                _ => false,
            }
    }

    /// Decoding one object twice gives values that agree.
    pub proof fn lemma_decode_agrees(a: Options, b: Options, j: Json)
        requires
            a.matches_json(j),
            b.matches_json(j),
        ensures
            a.agrees(b),
    {
        if let Some(Json::Array(items)) = field(j, "notificationOptions"@) {
            NotificationOption::lemma_seq_agrees(a.notifications_options->0@, b.notifications_options->0@, items@);
        }
        if let Some(Json::Array(items)) = field(j, "disabledListActivity"@) {
            ListActivityOption::lemma_seq_agrees(a.disabled_list_activity->0@, b.disabled_list_activity->0@, items@);
        }
    }

    /// Whether two lists hold values that agree, index by index.
    pub open spec fn seq_agrees(l1: Seq<Options>, l2: Seq<Options>) -> bool {
        &&& l1.len() == l2.len()
        &&& forall|i: int| 0 <= i < l1.len() ==> (#[trigger] l1[i]).agrees(l2[i])
    }

    /// Decoding one array twice gives lists that agree.
    pub proof fn lemma_seq_agrees(l1: Seq<Options>, l2: Seq<Options>, items: Seq<Json>)
        requires
            Options::seq_matches(l1, items),
            Options::seq_matches(l2, items),
        ensures
            Options::seq_agrees(l1, l2),
    {
        assert forall|i: int| 0 <= i < l1.len() implies (#[trigger] l1[i]).agrees(l2[i]) by {
            Options::lemma_decode_agrees(l1[i], l2[i], items[i]);
        }
    }
}

} // verus!
