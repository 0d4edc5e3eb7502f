//! The `Link` struct.
use vstd::prelude::*;

use crate::json::{Json, absent, bool_field, bool_fits, bool_of, field, fits_bool, fits_int, fits_text, get, i64_field, i64_of, int_fits, member_or_null, object_of, object_or_null, text_field, text_fits, text_of};
use crate::error::Error;
use crate::models::Color;
use crate::models::Language;
use crate::models::LinkType;
use crate::models::color_field;
use crate::models::color_matches;

verus! {

/// An external link of a media item.
#[derive(Debug, Clone, PartialEq, Default)]
pub struct Link {
    /// The ID of the link.
    pub id: Option<i64>,
    /// The title of the link.
    pub title: Option<String>,
    /// The thumbnail of the link.
    pub thumbnail: Option<String>,
    /// The URL of the link.
    pub url: Option<String>,
    /// The site of the link.
    pub site: Option<String>,
    /// The ID of the site.
    pub site_id: Option<i64>,
    /// The type of the link.
    pub link_type: Option<LinkType>,
    /// The language of the link.
    pub language: Option<Language>,
    /// The color of the link.
    pub color: Option<Color>,
    /// The icon of the link.
    pub icon: Option<String>,
    /// Notes on the link.
    pub notes: Option<String>,
    /// Whether the link is disabled.
    pub is_disabled: Option<bool>,
}

impl Link {
    /// Whether the decoded fields of this link are what the object `j` gives;
    /// an absent or `null` member leaves its field unset or empty.
    pub open spec fn matches_json(self, j: Json) -> bool {
        &&& self.id == i64_of(field(j, "id"@))
        &&& self.title == text_of(field(j, "title"@))
        &&& self.thumbnail == text_of(field(j, "thumbnail"@))
        &&& self.url == text_of(field(j, "url"@))
        &&& self.site == text_of(field(j, "site"@))
        &&& self.site_id == i64_of(field(j, "siteId"@))
        &&& self.link_type == match text_of(field(j, "type"@)) {
                Some(s) => Some(LinkType::read_spec(s@)),
                None => None,
            }
        &&& self.language == match text_of(field(j, "language"@)) {
                Some(s) => Some(Language::read_spec(s@)),
                None => None,
            }
        &&& color_matches(self.color, text_of(field(j, "color"@)))
        &&& self.icon == text_of(field(j, "icon"@))
        &&& self.notes == text_of(field(j, "notes"@))
        &&& self.is_disabled == bool_of(field(j, "isDisabled"@))
    }

    /// Whether `j` has the shape of a link: an object or `null` whose members
    /// are each absent, `null` or of their expected type.
    pub open spec fn well_typed(j: Json) -> bool {
        &&& object_or_null(j)
        &&& fits_int(field(j, "id"@), i64::MIN as int, i64::MAX as int)
        &&& fits_text(field(j, "title"@))
        &&& fits_text(field(j, "thumbnail"@))
        &&& fits_text(field(j, "url"@))
        &&& fits_text(field(j, "site"@))
        &&& fits_int(field(j, "siteId"@), i64::MIN as int, i64::MAX as int)
        &&& fits_text(field(j, "type"@))
        &&& fits_text(field(j, "language"@))
        &&& fits_text(field(j, "color"@))
        &&& fits_text(field(j, "icon"@))
        &&& fits_text(field(j, "notes"@))
        &&& fits_bool(field(j, "isDisabled"@))
    }

    /// Whether a member is absent, or has the shape of a link.
    pub open spec fn fits(v: Option<Json>) -> bool {
        match v {
            None => true,
            Some(x) => Link::well_typed(x),
        }
    }

    /// Whether an array item is a link object.
    pub open spec fn item_ok(j: Json) -> bool {
        j is Object && Link::well_typed(j)
    }

    /// Whether a member is absent, `null`, or an array of link objects.
    pub open spec fn fits_list(v: Option<Json>) -> bool {
        ||| absent(v)
        ||| (v matches Some(Json::Array(items)) && forall|i: int|
            0 <= i < items@.len() ==> Link::item_ok(#[trigger] items@[i]))
    }

    /// Decodes a link object; a member of the wrong type is a `DecodeError`.
    pub fn from_json(j: &Json) -> (r: Result<Link, Error>)
        ensures
            r is Ok <==> Link::well_typed(*j),
            r matches Ok(x) ==> x.matches_json(*j),
            r matches Err(e) ==> e is DecodeError,
    {
        match j {
            Json::Object(_) => {},
            Json::Null => {},
            _ => return Err(Error::DecodeError("object".to_string())),
        }
        if !int_fits(j, "id", i64::MIN as i128, i64::MAX as i128) {
            return Err(Error::DecodeError("id".to_string()));
        }
        let f_id = i64_field(j, "id");
        if !text_fits(j, "title") {
            return Err(Error::DecodeError("title".to_string()));
        }
        let f_title = text_field(j, "title");
        if !text_fits(j, "thumbnail") {
            return Err(Error::DecodeError("thumbnail".to_string()));
        }
        let f_thumbnail = text_field(j, "thumbnail");
        if !text_fits(j, "url") {
            return Err(Error::DecodeError("url".to_string()));
        }
        let f_url = text_field(j, "url");
        if !text_fits(j, "site") {
            return Err(Error::DecodeError("site".to_string()));
        }
        let f_site = text_field(j, "site");
        if !int_fits(j, "siteId", i64::MIN as i128, i64::MAX as i128) {
            return Err(Error::DecodeError("siteId".to_string()));
        }
        let f_site_id = i64_field(j, "siteId");
        if !text_fits(j, "type") {
            return Err(Error::DecodeError("type".to_string()));
        }
        let f_link_type = match get(j, "type") {
            Some(Json::Str(s)) => Some(LinkType::from(s.as_str())),
            _ => None,
        };
        if !text_fits(j, "language") {
            return Err(Error::DecodeError("language".to_string()));
        }
        let f_language = match get(j, "language") {
            Some(Json::Str(s)) => Some(Language::from(s.as_str())),
            _ => None,
        };
        if !text_fits(j, "color") {
            return Err(Error::DecodeError("color".to_string()));
        }
        let f_color = color_field(j, "color");
        if !text_fits(j, "icon") {
            return Err(Error::DecodeError("icon".to_string()));
        }
        let f_icon = text_field(j, "icon");
        if !text_fits(j, "notes") {
            return Err(Error::DecodeError("notes".to_string()));
        }
        let f_notes = text_field(j, "notes");
        if !bool_fits(j, "isDisabled") {
            return Err(Error::DecodeError("isDisabled".to_string()));
        }
        let f_is_disabled = bool_field(j, "isDisabled");
        Ok(Link {
            id: f_id,
            title: f_title,
            thumbnail: f_thumbnail,
            url: f_url,
            site: f_site,
            site_id: f_site_id,
            link_type: f_link_type,
            language: f_language,
            color: f_color,
            icon: f_icon,
            notes: f_notes,
            is_disabled: f_is_disabled,
        })
    }

    /// Decodes the member `key` of `j`; an absent member decodes as `null`.
    pub fn from_member(j: &Json, key: &str) -> (r: Result<Link, Error>)
        ensures
            r is Ok <==> Link::fits(field(*j, key@)),
            r matches Ok(x) ==> x.matches_json(member_or_null(*j, key@)),
            r matches Err(e) ==> e is DecodeError,
    {
        match get(j, key) {
            Some(v) => match Link::from_json(v) {
                Ok(x) => Ok(x),
                Err(_) => Err(Error::DecodeError(key.to_string())),
            },
            None => Link::from_json(&Json::Null),
        }
    }

    /// Decodes the member `key` of `j` when it is an object; none when it is
    /// absent or `null`.
    pub fn from_optional_member(j: &Json, key: &str) -> (r: Result<Option<Link>, Error>)
        ensures
            r is Ok <==> Link::fits(field(*j, key@)),
            r matches Ok(o) ==> match object_of(field(*j, key@)) {
                Some(x) => o matches Some(y) && y.matches_json(x),
                None => o is None,
            },
            r matches Err(e) ==> e is DecodeError,
    {
        match get(j, key) {
            Some(v) => match v {
                Json::Object(_) => match Link::from_json(v) {
                    Ok(x) => Ok(Some(x)),
                    Err(_) => Err(Error::DecodeError(key.to_string())),
                },
                Json::Null => Ok(None),
                _ => Err(Error::DecodeError(key.to_string())),
            },
            None => Ok(None),
        }
    }

    /// Whether each of `l` is what the item at its index decodes to.
    pub open spec fn seq_matches(l: Seq<Link>, items: Seq<Json>) -> bool {
        &&& l.len() == items.len()
        &&& forall|i: int| 0 <= i < items.len() ==> (#[trigger] l[i]).matches_json(items[i])
    }

    /// Decodes the member `key` of `j` as a list of objects; none when it is
    /// absent or `null`.
    pub fn list_field(j: &Json, key: &str) -> (r: Result<Option<Vec<Link>>, Error>)
        ensures
            r is Ok <==> Link::fits_list(field(*j, key@)),
            r matches Ok(o) ==> match field(*j, key@) {
                Some(Json::Array(items)) => o matches Some(l) && Link::seq_matches(l@, items@),
                _ => o is None,
            },
            r matches Err(e) ==> e is DecodeError,
    {
        match get(j, key) {
            Some(Json::Array(items)) => {
                let mut out: Vec<Link> = Vec::new();
                let mut i: usize = 0;
                while i < items.len()
                    invariant
                        i <= items@.len(),
                        field(*j, key@) == Some(Json::Array(*items)),
                        out@.len() == i,
                        forall|k: int| 0 <= k < i ==> (#[trigger] out@[k]).matches_json(items@[k]),
                        forall|k: int| 0 <= k < i ==> Link::item_ok(#[trigger] items@[k]),
                    decreases items.len() - i,
                {
                    match &items[i] {
                        Json::Object(_) => match Link::from_json(&items[i]) {
                            Ok(x) => out.push(x),
                            Err(_) => {
                                assert(!Link::item_ok(items@[i as int]));
                                assert(!absent(field(*j, key@)));
                                assert(field(*j, key@) matches Some(Json::Array(its)) && its@ == items@);
                                return Err(Error::DecodeError(key.to_string()));
                            },
                        },
                        _ => {
                            assert(!Link::item_ok(items@[i as int]));
                            assert(!absent(field(*j, key@)));
                                assert(field(*j, key@) matches Some(Json::Array(its)) && its@ == items@);
                            return Err(Error::DecodeError(key.to_string()));
                        },
                    }
                    i = i + 1;
                }
                Ok(Some(out))
            },
            Some(Json::Null) => Ok(None),
            None => Ok(None),
            _ => Err(Error::DecodeError(key.to_string())),
        }
    }

    /// Whether two links hold the same decoded values, field by field (strings by
    /// their characters).
    pub open spec fn agrees(self, o: Link) -> bool {
        &&& self.id == o.id
        &&& self.title == o.title
        &&& self.thumbnail == o.thumbnail
        &&& self.url == o.url
        &&& self.site == o.site
        &&& self.site_id == o.site_id
        &&& self.link_type == o.link_type
        &&& self.language == o.language
        &&& Color::same_option(self.color, o.color)
        &&& self.icon == o.icon
        &&& self.notes == o.notes
        &&& self.is_disabled == o.is_disabled
    }

    /// Decoding one object twice gives values that agree.
    pub proof fn lemma_decode_agrees(a: Link, b: Link, j: Json)
        requires
            a.matches_json(j),
            b.matches_json(j),
        ensures
            a.agrees(b),
    {
    }

    /// Whether two lists hold values that agree, index by index.
    pub open spec fn seq_agrees(l1: Seq<Link>, l2: Seq<Link>) -> bool {
        &&& l1.len() == l2.len()
        &&& forall|i: int| 0 <= i < l1.len() ==> (#[trigger] l1[i]).agrees(l2[i])
    }

    /// Decoding one array twice gives lists that agree.
    pub proof fn lemma_seq_agrees(l1: Seq<Link>, l2: Seq<Link>, items: Seq<Json>)
        requires
            Link::seq_matches(l1, items),
            Link::seq_matches(l2, items),
        ensures
            Link::seq_agrees(l1, l2),
    {
        assert forall|i: int| 0 <= i < l1.len() implies (#[trigger] l1[i]).agrees(l2[i]) by {
            Link::lemma_decode_agrees(l1[i], l2[i], items[i]);
        }
    }
}

} // verus!
