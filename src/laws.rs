//! Laws that relate the library's functions, stated over their specifications.
use vstd::prelude::*;

use crate::client::Client;
use crate::json::Json;
use crate::models::{
    Anime, Character, CharacterRole, Color, Cover, Format, Gender, Image, Language, LinkType,
    Manga, NotificationType, Person, RelationType, Season, Source, Status, User,
    UserStaffNameLanguage, UserTitleLanguage,
};
use crate::text::{ascii_uppercased, trimmed, uppercased};

verus! {

/// A wire text that names no `Format` once trimmed and upper-cased reads as `Format::Tv`:
/// decoding never fails on an unknown value.
pub proof fn unknown_format_reads_as_default(raw: Seq<char>)
    requires
        !Format::is_wire_name(uppercased(trimmed(raw))),
    ensures
        Format::read_spec(raw) == Format::Tv,
{
}

/// A wire text that names no `Season` once trimmed and upper-cased reads as `Season::Winter`:
/// decoding never fails on an unknown value.
pub proof fn unknown_season_reads_as_default(raw: Seq<char>)
    requires
        !Season::is_wire_name(uppercased(trimmed(raw))),
    ensures
        Season::read_spec(raw) == Season::Winter,
{
}

/// A wire text that names no `Source` once ASCII upper-cased reads as `Source::Other`:
/// decoding never fails on an unknown value.
pub proof fn unknown_source_reads_as_default(raw: Seq<char>)
    requires
        !Source::is_wire_name(ascii_uppercased(raw)),
    ensures
        Source::read_spec(raw) == Source::Other,
{
}

/// A wire text that names no `Status` once trimmed and upper-cased reads as `Status::NotYetReleased`:
/// decoding never fails on an unknown value.
pub proof fn unknown_status_reads_as_default(raw: Seq<char>)
    requires
        !Status::is_wire_name(uppercased(trimmed(raw))),
    ensures
        Status::read_spec(raw) == Status::NotYetReleased,
{
}

/// A wire text that names no `LinkType` once trimmed and upper-cased reads as `LinkType::Info`:
/// decoding never fails on an unknown value.
pub proof fn unknown_link_type_reads_as_default(raw: Seq<char>)
    requires
        !LinkType::is_wire_name(uppercased(trimmed(raw))),
    ensures
        LinkType::read_spec(raw) == LinkType::Info,
{
}

/// A wire text that names no `NotificationType` once trimmed and upper-cased reads as `NotificationType::ActivityMessage`:
/// decoding never fails on an unknown value.
pub proof fn unknown_notification_type_reads_as_default(raw: Seq<char>)
    requires
        !NotificationType::is_wire_name(uppercased(trimmed(raw))),
    ensures
        NotificationType::read_spec(raw) == NotificationType::ActivityMessage,
{
}

/// A wire text that names no `RelationType` once trimmed and upper-cased reads as `RelationType::Other`:
/// decoding never fails on an unknown value.
pub proof fn unknown_relation_type_reads_as_default(raw: Seq<char>)
    requires
        !RelationType::is_wire_name(uppercased(trimmed(raw))),
    ensures
        RelationType::read_spec(raw) == RelationType::Other,
{
}

/// A wire text that names no `CharacterRole` once trimmed and upper-cased reads as `CharacterRole::Background`:
/// decoding never fails on an unknown value.
pub proof fn unknown_character_role_reads_as_default(raw: Seq<char>)
    requires
        !CharacterRole::is_wire_name(uppercased(trimmed(raw))),
    ensures
        CharacterRole::read_spec(raw) == CharacterRole::Background,
{
}

/// A wire text that names no `UserTitleLanguage` once trimmed and upper-cased reads as `UserTitleLanguage::Romaji`:
/// decoding never fails on an unknown value.
pub proof fn unknown_user_title_language_reads_as_default(raw: Seq<char>)
    requires
        !UserTitleLanguage::is_wire_name(uppercased(trimmed(raw))),
    ensures
        UserTitleLanguage::read_spec(raw) == UserTitleLanguage::Romaji,
{
}

/// A wire text that names no `UserStaffNameLanguage` once trimmed and upper-cased reads as `UserStaffNameLanguage::Romaji`:
/// decoding never fails on an unknown value.
pub proof fn unknown_user_staff_name_language_reads_as_default(raw: Seq<char>)
    requires
        !UserStaffNameLanguage::is_wire_name(uppercased(trimmed(raw))),
    ensures
        UserStaffNameLanguage::read_spec(raw) == UserStaffNameLanguage::Romaji,
{
}

/// A wire text that names no `Language` once trimmed and upper-cased reads as `Language::Japanese`:
/// decoding never fails on an unknown value.
pub proof fn unknown_language_reads_as_default(raw: Seq<char>)
    requires
        !Language::is_wire_name(uppercased(trimmed(raw))),
    ensures
        Language::read_spec(raw) == Language::Japanese,
{
}

/// A color text that names no color once trimmed and upper-cased reads as a
/// hex color holding the text as given: decoding never fails on it.
pub proof fn unknown_color_reads_as_hex(raw: Seq<char>, c: Color)
    requires
        Color::named_spec(uppercased(trimmed(raw))) is None,
        Color::read_spec(c, raw),
    ensures
        c matches Color::Hex(h) && h@ == raw,
{
}

/// A gender text other than the three known ones reads as `Other` holding the
/// text as given: decoding never fails on it.
pub proof fn unknown_gender_reads_as_other(raw: Seq<char>, g: Gender)
    requires
        uppercased(trimmed(raw)) != "MALE"@,
        uppercased(trimmed(raw)) != "FEMALE"@,
        uppercased(trimmed(raw)) != "NON-BINARY"@,
        Gender::read_spec(g, raw),
    ensures
        g matches Gender::Other(s) && s@ == raw,
{
}

/// The largest cover image is the extra large one when present; with only a
/// medium one it is the medium one; with none there is none.
pub proof fn cover_largest_prefers_larger(c: Cover)
    ensures
        c.extra_large is Some ==> c.largest_spec() == c.extra_large,
        c.extra_large is None && c.large is Some ==> c.largest_spec() == c.large,
        c.extra_large is None && c.large is None ==> c.largest_spec() == c.medium,
        c.extra_large is None && c.large is None && c.medium is None ==> c.largest_spec() is None,
{
}

/// The largest image is the large one when it is not empty, else the medium
/// one; with both empty it is empty.
pub proof fn image_largest_prefers_larger(i: Image)
    ensures
        i.large@.len() > 0 ==> i.largest_spec() == i.large@,
        i.large@.len() == 0 ==> i.largest_spec() == i.medium@,
        i.large@.len() == 0 && i.medium@.len() == 0 ==> i.largest_spec().len() == 0,
{
}

/// Decoding the same anime document twice gives equal records: every decoded
/// field agrees, and the kept documents, client and load state are equal.
pub proof fn anime_decoding_is_deterministic(a: Anime, b: Anime, j: Json, client: Client, full: bool)
    requires
        a.loaded_from(j, client, full),
        b.loaded_from(j, client, full),
    ensures
        a.agrees(b),
        a.relations == b.relations,
        a.characters == b.characters,
        a.client == b.client,
        a.is_full_loaded == b.is_full_loaded,
{
    Anime::lemma_decode_agrees(a, b, j);
}

/// Decoding the same manga document twice gives equal records.
pub proof fn manga_decoding_is_deterministic(a: Manga, b: Manga, j: Json, client: Client, full: bool)
    requires
        a.loaded_from(j, client, full),
        b.loaded_from(j, client, full),
    ensures
        a.agrees(b),
        a.relations == b.relations,
        a.characters == b.characters,
        a.client == b.client,
        a.is_full_loaded == b.is_full_loaded,
{
    Manga::lemma_decode_agrees(a, b, j);
}

/// Decoding the same character document twice gives equal records.
pub proof fn character_decoding_is_deterministic(
    a: Character,
    b: Character,
    j: Json,
    client: Client,
    full: bool,
)
    requires
        a.decoded_from(j, client, full),
        b.decoded_from(j, client, full),
    ensures
        a.agrees(b),
        a.role == b.role,
        a.client == b.client,
        a.is_full_loaded == b.is_full_loaded,
{
    Character::lemma_decode_agrees(a, b, j);
}

/// Decoding the same person document twice gives equal records.
pub proof fn person_decoding_is_deterministic(a: Person, b: Person, j: Json, client: Client, full: bool)
    requires
        a.decoded_from(j, client, full),
        b.decoded_from(j, client, full),
    ensures
        a.agrees(b),
        a.client == b.client,
        a.is_full_loaded == b.is_full_loaded,
{
    Person::lemma_decode_agrees(a, b, j);
}

/// Decoding the same user document twice gives equal records (the favourites,
/// which are not fetched, are empty in both).
pub proof fn user_decoding_is_deterministic(a: User, b: User, j: Json, client: Client, full: bool)
    requires
        a.decoded_from(j, client, full),
        b.decoded_from(j, client, full),
    ensures
        a.agrees(b),
        a.client == b.client,
        a.is_full_loaded == b.is_full_loaded,
        a.favourites.is_empty_spec() && b.favourites.is_empty_spec(),
{
    User::lemma_decode_agrees(a, b, j);
}

/// An anime that full loading returns is fully loaded, so loading it again is
/// refused: `load_full_request` and `load_full_from_response` require an anime
/// that is not.
pub proof fn loaded_anime_cannot_be_loaded_again(a: Anime, j: Json, client: Client)
    requires
        a.loaded_from(j, client, true),
    ensures
        a.is_full_loaded,
{
}

/// A manga that full loading returns is fully loaded, so loading it again is refused.
pub proof fn loaded_manga_cannot_be_loaded_again(m: Manga, j: Json, client: Client)
    requires
        m.loaded_from(j, client, true),
    ensures
        m.is_full_loaded,
{
}

/// A user that full loading returns is fully loaded, so loading it again is refused.
pub proof fn loaded_user_cannot_be_loaded_again(u: User, j: Json, client: Client)
    requires
        u.decoded_from(j, client, true),
    ensures
        u.is_full_loaded,
{
}

} // verus!
