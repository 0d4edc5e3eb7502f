//! The `User` struct.
use vstd::prelude::*;

use crate::json::{Json, absent, bool_field, bool_fits, bool_of, field, fits_bool, fits_int, fits_text, get, i32_field, i32_of, i64_field, i64_of, int_fits, member_or_null, object_of, object_or_null, text_field, text_fits, text_of, text_or_empty, text_or_empty_field};
use crate::client::Client;
use crate::error::Error;
use crate::models::Favourites;
use crate::models::Image;
use crate::models::MediaListOptions;
use crate::models::Options;
use crate::models::UserStatisticTypes;
use crate::text::or_else;

verus! {

/// A user of the service.
#[derive(Debug, PartialEq)]
pub struct User {
    /// The ID of the user.
    pub id: i32,
    /// The name of the user.
    pub name: String,
    /// The about text of the user.
    pub about: Option<String>,
    /// The avatar of the user.
    pub avatar: Option<Image>,
    /// The banner of the user.
    pub banner: Option<String>,
    /// The donator badge.
    pub donator_badge: String,
    /// The donator tier.
    pub donator_tier: i32,
    /// Whether the user is blocked.
    pub is_blocked: Option<bool>,
    /// Whether the user follows the viewer.
    pub is_follower: Option<bool>,
    /// Whether the viewer follows the user.
    pub is_following: Option<bool>,
    /// The list options.
    pub media_list_options: Option<MediaListOptions>,
    /// The settings.
    pub options: Option<Options>,
    /// The site URL of the user.
    pub url: String,
    /// The statistics.
    pub statistics: UserStatisticTypes,
    /// The number of unread notifications.
    pub unread_notification_count: Option<i32>,
    /// When the user was created.
    pub created_at: i64,
    /// When the user was last updated.
    pub updated_at: i64,
    /// The favourites of the user; not fetched.
    pub favourites: Favourites,
    /// The configuration used to fetch more data.
    pub client: Client,
    /// Whether every field was fetched.
    pub is_full_loaded: bool,
}

impl User {
    /// Whether the decoded fields of this user are what the object `j` gives;
    /// an absent or `null` member leaves its field unset or empty.
    pub open spec fn matches_json(self, j: Json) -> bool {
        &&& self.id == i32_of(field(j, "id"@))->0
        &&& self.name@ == text_or_empty(field(j, "name"@))
        &&& self.about == text_of(field(j, "about"@))
        &&& match object_of(field(j, "avatar"@)) {
                Some(o) => self.avatar matches Some(x) && x.matches_json(o),
                None => self.avatar is None,
            }
        &&& self.banner == text_of(field(j, "bannerImage"@))
        &&& self.donator_badge@ == text_or_empty(field(j, "donatorBadge"@))
        &&& self.donator_tier == or_else(i32_of(field(j, "donatorTier"@)), 0i32)
        &&& self.is_blocked == bool_of(field(j, "isBlocked"@))
        &&& self.is_follower == bool_of(field(j, "isFollower"@))
        &&& self.is_following == bool_of(field(j, "isFollowing"@))
        &&& match object_of(field(j, "mediaListOptions"@)) {
                Some(o) => self.media_list_options matches Some(x) && x.matches_json(o),
                None => self.media_list_options is None,
            }
        &&& match object_of(field(j, "options"@)) {
                Some(o) => self.options matches Some(x) && x.matches_json(o),
                None => self.options is None,
            }
        &&& self.url@ == text_or_empty(field(j, "siteUrl"@))
        &&& self.statistics.matches_json(member_or_null(j, "statistics"@))
        &&& self.unread_notification_count == i32_of(field(j, "unreadNotificationCount"@))
        &&& self.created_at == or_else(i64_of(field(j, "createdAt"@)), 0i64)
        &&& self.updated_at == or_else(i64_of(field(j, "updatedAt"@)), 0i64)
    }

    /// Whether `j` has the shape of a user: an object or `null` whose members
    /// are each absent, `null` or of their expected type.
    pub open spec fn well_typed(j: Json) -> bool {
        &&& object_or_null(j)
        &&& fits_text(field(j, "name"@))
        &&& fits_text(field(j, "about"@))
        &&& Image::fits(field(j, "avatar"@))
        &&& fits_text(field(j, "bannerImage"@))
        &&& fits_text(field(j, "donatorBadge"@))
        &&& fits_int(field(j, "donatorTier"@), i32::MIN as int, i32::MAX as int)
        &&& fits_bool(field(j, "isBlocked"@))
        &&& fits_bool(field(j, "isFollower"@))
        &&& fits_bool(field(j, "isFollowing"@))
        &&& MediaListOptions::fits(field(j, "mediaListOptions"@))
        &&& Options::fits(field(j, "options"@))
        &&& fits_text(field(j, "siteUrl"@))
        &&& UserStatisticTypes::fits(field(j, "statistics"@))
        &&& fits_int(field(j, "unreadNotificationCount"@), i32::MIN as int, i32::MAX as int)
        &&& fits_int(field(j, "createdAt"@), i64::MIN as int, i64::MAX as int)
        &&& fits_int(field(j, "updatedAt"@), i64::MIN as int, i64::MAX as int)
    }

    /// Whether `j` decodes as a user: its `id` is an integer in range and it is
    /// well typed.
    pub open spec fn decodes(j: Json) -> bool {
        i32_of(field(j, "id"@)) is Some && User::well_typed(j)
    }

    /// Whether this user is what `from_json` makes of `j` with `client` and `full`.
    pub open spec fn decoded_from(self, j: Json, client: Client, full: bool) -> bool {
        &&& self.matches_json(j)
        &&& self.favourites.is_empty_spec()
        &&& self.client == client
        &&& self.is_full_loaded == full
    }

    /// Decodes a user object. It fails with `DecodeError("id")` when the member
    /// `id` is not an integer in range, and with a `DecodeError` naming the member
    /// when another member is present, not `null`, and of the wrong type.
    pub fn from_json(j: &Json, client: &Client, full: bool) -> (r: Result<User, Error>)
        ensures
            r is Ok <==> User::decodes(*j),
            r matches Ok(x) ==> x.decoded_from(*j, *client, full),
            i32_of(field(*j, "id"@)) is None ==> (r matches Err(e) && e matches Error::DecodeError(m) && m@ == "id"@),
            r matches Err(e) ==> e is DecodeError,
    {
        let id = match i32_field(j, "id") {
            Some(v) => v,
            None => return Err(Error::DecodeError("id".to_string())),
        };
        if !text_fits(j, "name") {
            return Err(Error::DecodeError("name".to_string()));
        }
        let f_name = text_or_empty_field(j, "name");
        if !text_fits(j, "about") {
            return Err(Error::DecodeError("about".to_string()));
        }
        let f_about = text_field(j, "about");
        let f_avatar = match Image::from_optional_member(j, "avatar") {
            Ok(v) => v,
            Err(e) => return Err(e),
        };
        if !text_fits(j, "bannerImage") {
            return Err(Error::DecodeError("bannerImage".to_string()));
        }
        let f_banner = text_field(j, "bannerImage");
        if !text_fits(j, "donatorBadge") {
            return Err(Error::DecodeError("donatorBadge".to_string()));
        }
        let f_donator_badge = text_or_empty_field(j, "donatorBadge");
        if !int_fits(j, "donatorTier", i32::MIN as i128, i32::MAX as i128) {
            return Err(Error::DecodeError("donatorTier".to_string()));
        }
        let f_donator_tier = match i32_field(j, "donatorTier") {
            Some(v) => v,
            None => 0,
        };
        if !bool_fits(j, "isBlocked") {
            return Err(Error::DecodeError("isBlocked".to_string()));
        }
        let f_is_blocked = bool_field(j, "isBlocked");
        if !bool_fits(j, "isFollower") {
            return Err(Error::DecodeError("isFollower".to_string()));
        }
        let f_is_follower = bool_field(j, "isFollower");
        if !bool_fits(j, "isFollowing") {
            return Err(Error::DecodeError("isFollowing".to_string()));
        }
        let f_is_following = bool_field(j, "isFollowing");
        let f_media_list_options = match MediaListOptions::from_optional_member(j, "mediaListOptions") {
            Ok(v) => v,
            Err(e) => return Err(e),
        };
        let f_options = match Options::from_optional_member(j, "options") {
            Ok(v) => v,
            Err(e) => return Err(e),
        };
        if !text_fits(j, "siteUrl") {
            return Err(Error::DecodeError("siteUrl".to_string()));
        }
        let f_url = text_or_empty_field(j, "siteUrl");
        let f_statistics = match UserStatisticTypes::from_member(j, "statistics") {
            Ok(v) => v,
            Err(e) => return Err(e),
        };
        if !int_fits(j, "unreadNotificationCount", i32::MIN as i128, i32::MAX as i128) {
            return Err(Error::DecodeError("unreadNotificationCount".to_string()));
        }
        let f_unread_notification_count = i32_field(j, "unreadNotificationCount");
        if !int_fits(j, "createdAt", i64::MIN as i128, i64::MAX as i128) {
            return Err(Error::DecodeError("createdAt".to_string()));
        }
        let f_created_at = match i64_field(j, "createdAt") {
            Some(v) => v,
            None => 0,
        };
        if !int_fits(j, "updatedAt", i64::MIN as i128, i64::MAX as i128) {
            return Err(Error::DecodeError("updatedAt".to_string()));
        }
        let f_updated_at = match i64_field(j, "updatedAt") {
            Some(v) => v,
            None => 0,
        };
        Ok(User {
            id,
            name: f_name,
            about: f_about,
            avatar: f_avatar,
            banner: f_banner,
            donator_badge: f_donator_badge,
            donator_tier: f_donator_tier,
            is_blocked: f_is_blocked,
            is_follower: f_is_follower,
            is_following: f_is_following,
            media_list_options: f_media_list_options,
            options: f_options,
            url: f_url,
            statistics: f_statistics,
            unread_notification_count: f_unread_notification_count,
            created_at: f_created_at,
            updated_at: f_updated_at,
            favourites: Favourites::empty(),
            client: client.duplicate(),
            is_full_loaded: full,
        })
    }

    /// Whether two users hold the same decoded values, field by field (strings by
    /// their characters).
    pub open spec fn agrees(self, o: User) -> bool {
        &&& self.id == o.id
        &&& self.name@ == o.name@
        &&& self.about == o.about
        &&& match (self.avatar, o.avatar) {
                (Some(x), Some(y)) => x.agrees(y),
                (None, None) => true,
                _ => false,
            }
        &&& self.banner == o.banner
        &&& self.donator_badge@ == o.donator_badge@
        &&& self.donator_tier == o.donator_tier
        &&& self.is_blocked == o.is_blocked
        &&& self.is_follower == o.is_follower
        &&& self.is_following == o.is_following
        &&& match (self.media_list_options, o.media_list_options) {
                (Some(x), Some(y)) => x.agrees(y),
                (None, None) => true,
                _ => false,
            }
        &&& match (self.options, o.options) {
                (Some(x), Some(y)) => x.agrees(y),
                (None, None) => true,
                _ => false,
            }
        &&& self.url@ == o.url@
        &&& self.statistics.agrees(o.statistics)
        &&& self.unread_notification_count == o.unread_notification_count
        &&& self.created_at == o.created_at
        &&& self.updated_at == o.updated_at
    }

    /// Decoding one object twice gives values that agree.
    pub proof fn lemma_decode_agrees(a: User, b: User, j: Json)
        requires
            a.matches_json(j),
            b.matches_json(j),
        ensures
            a.agrees(b),
    {
        if let Some(o) = object_of(field(j, "avatar"@)) {
            Image::lemma_decode_agrees(a.avatar->0, b.avatar->0, o);
        }
        if let Some(o) = object_of(field(j, "mediaListOptions"@)) {
            MediaListOptions::lemma_decode_agrees(a.media_list_options->0, b.media_list_options->0, o);
        }
        if let Some(o) = object_of(field(j, "options"@)) {
            Options::lemma_decode_agrees(a.options->0, b.options->0, o);
        }
        UserStatisticTypes::lemma_decode_agrees(a.statistics, b.statistics, member_or_null(j, "statistics"@));
    }
}

} // verus!
