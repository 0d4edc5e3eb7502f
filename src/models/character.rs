//! The `Character` struct.
use vstd::prelude::*;

use crate::json::{Json, absent, bool_field, bool_fits, bool_of, field, fits_bool, fits_int, fits_text, get, i64_field, i64_of, int_fits, member_or_null, object_of, object_or_null, text_field, text_fits, text_of, text_or_empty, text_or_empty_field};
use crate::client::Client;
use crate::error::Error;
use crate::models::CharacterRole;
use crate::models::Date;
use crate::models::Gender;
use crate::models::Image;
use crate::models::Name;

verus! {

/// A character of some media. Its role belongs to one media item and is set only when the character comes from that item's character list.
#[derive(Debug, PartialEq)]
pub struct Character {
    /// The ID of the character.
    pub id: i64,
    /// The name of the character.
    pub name: Name,
    /// The image of the character.
    pub image: Image,
    /// The description of the character.
    pub description: Option<String>,
    /// The gender of the character.
    pub gender: Option<Gender>,
    /// The birth date of the character.
    pub date_of_birth: Option<Date>,
    /// The age of the character.
    pub age: Option<String>,
    /// The blood type of the character.
    pub blood_type: Option<String>,
    /// Whether the character is a favourite.
    pub is_favourite: Option<bool>,
    /// The site URL of the character.
    pub url: String,
    /// The number of favourites.
    pub favourites: Option<i64>,
    /// The role of the character in the media it was listed for.
    pub role: Option<CharacterRole>,
    /// The configuration used to fetch more data.
    pub client: Client,
    /// Whether every field was fetched.
    pub is_full_loaded: bool,
}

impl Character {
    /// Whether the decoded fields of this character are what the object `j` gives;
    /// an absent or `null` member leaves its field unset or empty.
    pub open spec fn matches_json(self, j: Json) -> bool {
        &&& self.id == i64_of(field(j, "id"@))->0
        &&& self.name.matches_json(member_or_null(j, "name"@))
        &&& self.image.matches_json(member_or_null(j, "image"@))
        &&& self.description == text_of(field(j, "description"@))
        &&& match text_of(field(j, "gender"@)) {
                Some(s) => self.gender matches Some(g) && Gender::read_spec(g, s@),
                None => self.gender is None,
            }
        &&& match object_of(field(j, "dateOfBirth"@)) {
                Some(o) => self.date_of_birth matches Some(x) && x.matches_json(o),
                None => self.date_of_birth is None,
            }
        &&& self.age == text_of(field(j, "age"@))
        &&& self.blood_type == text_of(field(j, "bloodType"@))
        &&& self.is_favourite == bool_of(field(j, "isFavourite"@))
        &&& self.url@ == text_or_empty(field(j, "siteUrl"@))
        &&& self.favourites == i64_of(field(j, "favourites"@))
    }

    /// Whether `j` has the shape of a character: an object or `null` whose members
    /// are each absent, `null` or of their expected type.
    pub open spec fn well_typed(j: Json) -> bool {
        &&& object_or_null(j)
        &&& Name::fits(field(j, "name"@))
        &&& Image::fits(field(j, "image"@))
        &&& fits_text(field(j, "description"@))
        &&& fits_text(field(j, "gender"@))
        &&& Date::fits(field(j, "dateOfBirth"@))
        &&& fits_text(field(j, "age"@))
        &&& fits_text(field(j, "bloodType"@))
        &&& fits_bool(field(j, "isFavourite"@))
        &&& fits_text(field(j, "siteUrl"@))
        &&& fits_int(field(j, "favourites"@), i64::MIN as int, i64::MAX as int)
    }

    /// Whether `j` decodes as a character: its `id` is an integer in range and it is
    /// well typed.
    pub open spec fn decodes(j: Json) -> bool {
        i64_of(field(j, "id"@)) is Some && Character::well_typed(j)
    }

    /// Whether this character is what `from_json` makes of `j` with `client` and `full`.
    pub open spec fn decoded_from(self, j: Json, client: Client, full: bool) -> bool {
        &&& self.matches_json(j)
        &&& self.role is None
        &&& self.client == client
        &&& self.is_full_loaded == full
    }

    /// Decodes a character object. It fails with `DecodeError("id")` when the member
    /// `id` is not an integer in range, and with a `DecodeError` naming the member
    /// when another member is present, not `null`, and of the wrong type.
    pub fn from_json(j: &Json, client: &Client, full: bool) -> (r: Result<Character, Error>)
        ensures
            r is Ok <==> Character::decodes(*j),
            r matches Ok(x) ==> x.decoded_from(*j, *client, full),
            i64_of(field(*j, "id"@)) is None ==> (r matches Err(e) && e matches Error::DecodeError(m) && m@ == "id"@),
            r matches Err(e) ==> e is DecodeError,
    {
        let id = match i64_field(j, "id") {
            Some(v) => v,
            None => return Err(Error::DecodeError("id".to_string())),
        };
        let f_name = match Name::from_member(j, "name") {
            Ok(v) => v,
            Err(e) => return Err(e),
        };
        let f_image = match Image::from_member(j, "image") {
            Ok(v) => v,
            Err(e) => return Err(e),
        };
        if !text_fits(j, "description") {
            return Err(Error::DecodeError("description".to_string()));
        }
        let f_description = text_field(j, "description");
        if !text_fits(j, "gender") {
            return Err(Error::DecodeError("gender".to_string()));
        }
        let f_gender = match get(j, "gender") {
            Some(Json::Str(s)) => Some(Gender::from_wire(s.as_str())),
            _ => None,
        };
        let f_date_of_birth = match Date::from_optional_member(j, "dateOfBirth") {
            Ok(v) => v,
            Err(e) => return Err(e),
        };
        if !text_fits(j, "age") {
            return Err(Error::DecodeError("age".to_string()));
        }
        let f_age = text_field(j, "age");
        if !text_fits(j, "bloodType") {
            return Err(Error::DecodeError("bloodType".to_string()));
        }
        let f_blood_type = text_field(j, "bloodType");
        if !bool_fits(j, "isFavourite") {
            return Err(Error::DecodeError("isFavourite".to_string()));
        }
        let f_is_favourite = bool_field(j, "isFavourite");
        if !text_fits(j, "siteUrl") {
            return Err(Error::DecodeError("siteUrl".to_string()));
        }
        let f_url = text_or_empty_field(j, "siteUrl");
        if !int_fits(j, "favourites", i64::MIN as i128, i64::MAX as i128) {
            return Err(Error::DecodeError("favourites".to_string()));
        }
        let f_favourites = i64_field(j, "favourites");
        Ok(Character {
            id,
            name: f_name,
            image: f_image,
            description: f_description,
            gender: f_gender,
            date_of_birth: f_date_of_birth,
            age: f_age,
            blood_type: f_blood_type,
            is_favourite: f_is_favourite,
            url: f_url,
            favourites: f_favourites,
            role: None,
            client: client.duplicate(),
            is_full_loaded: full,
        })
    }

    /// Whether two characters hold the same decoded values, field by field (strings by
    /// their characters).
    pub open spec fn agrees(self, o: Character) -> bool {
        &&& self.id == o.id
        &&& self.name.agrees(o.name)
        &&& self.image.agrees(o.image)
        &&& self.description == o.description
        &&& Gender::same_option(self.gender, o.gender)
        &&& match (self.date_of_birth, o.date_of_birth) {
                (Some(x), Some(y)) => x.agrees(y),
                (None, None) => true,
                _ => false,
            }
        &&& self.age == o.age
        &&& self.blood_type == o.blood_type
        &&& self.is_favourite == o.is_favourite
        &&& self.url@ == o.url@
        &&& self.favourites == o.favourites
    }

    /// Decoding one object twice gives values that agree.
    pub proof fn lemma_decode_agrees(a: Character, b: Character, j: Json)
        requires
            a.matches_json(j),
            b.matches_json(j),
        ensures
            a.agrees(b),
    {
        Name::lemma_decode_agrees(a.name, b.name, member_or_null(j, "name"@));
        Image::lemma_decode_agrees(a.image, b.image, member_or_null(j, "image"@));
        if let Some(o) = object_of(field(j, "dateOfBirth"@)) {
            Date::lemma_decode_agrees(a.date_of_birth->0, b.date_of_birth->0, o);
        }
    }
}

} // verus!
