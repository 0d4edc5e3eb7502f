//! The `UserTitleLanguage` enum.
use vstd::prelude::*;

use crate::text::{same_text, to_upper, trim, trimmed, uppercased};

verus! {

/// The language in which a user prefers to read titles.
#[derive(Debug, Clone, Copy, PartialEq, Eq, Hash, Structural)]
pub enum UserTitleLanguage {
    /// Romaji titles.
    Romaji,
    /// English titles.
    English,
    /// Native titles.
    Native,
    /// Stylised romaji titles.
    RomajiStylised,
    /// Stylised English titles.
    EnglishStylised,
    /// Stylised native titles.
    NativeStylised,
}

impl Default for UserTitleLanguage {
    fn default() -> (r: UserTitleLanguage)
        ensures
            r == UserTitleLanguage::Romaji,
    {
        UserTitleLanguage::Romaji
    }
}

impl UserTitleLanguage {
    /// The variant named by an upper-case wire text; `Romaji` for any text that names none.
    pub open spec fn from_wire_spec(s: Seq<char>) -> UserTitleLanguage {
        if s == "ROMAJI"@ {
            UserTitleLanguage::Romaji
        } else if s == "ENGLISH"@ {
            UserTitleLanguage::English
        } else if s == "NATIVE"@ {
            UserTitleLanguage::Native
        } else if s == "ROMAJI_STYLISED"@ {
            UserTitleLanguage::RomajiStylised
        } else if s == "ENGLISH_STYLISED"@ {
            UserTitleLanguage::EnglishStylised
        } else if s == "NATIVE_STYLISED"@ {
            UserTitleLanguage::NativeStylised
        } else {
            UserTitleLanguage::Romaji
        }
    }

    /// The variant that a wire text reads as, after folding its case.
    pub open spec fn read_spec(raw: Seq<char>) -> UserTitleLanguage {
        UserTitleLanguage::from_wire_spec(uppercased(trimmed(raw)))
    }

    /// Whether an upper-case wire text names a variant.
    pub open spec fn is_wire_name(s: Seq<char>) -> bool {
        s == "ROMAJI"@
        || s == "ENGLISH"@
        || s == "NATIVE"@
        || s == "ROMAJI_STYLISED"@
        || s == "ENGLISH_STYLISED"@
        || s == "NATIVE_STYLISED"@
    }

    /// Reads a wire text that is already upper case and trimmed.
    pub fn from_folded(s: &str) -> (r: UserTitleLanguage)
        ensures
            r == UserTitleLanguage::from_wire_spec(s@),
    {
        if same_text(s, "ROMAJI") {
            UserTitleLanguage::Romaji
        } else if same_text(s, "ENGLISH") {
            UserTitleLanguage::English
        } else if same_text(s, "NATIVE") {
            UserTitleLanguage::Native
        } else if same_text(s, "ROMAJI_STYLISED") {
            UserTitleLanguage::RomajiStylised
        } else if same_text(s, "ENGLISH_STYLISED") {
            UserTitleLanguage::EnglishStylised
        } else if same_text(s, "NATIVE_STYLISED") {
            UserTitleLanguage::NativeStylised
        } else {
            UserTitleLanguage::Romaji
        }
    }
}

/// Reads a wire text, trimmed and upper-cased first; unknown texts give `Romaji`.
impl From<&str> for UserTitleLanguage {
    fn from(value: &str) -> UserTitleLanguage {
        let folded = to_upper(trim(value));
        UserTitleLanguage::from_folded(folded.as_str())
    }
}

impl vstd::std_specs::convert::FromSpecImpl<&str> for UserTitleLanguage {
    open spec fn obeys_from_spec() -> bool {
        true
    }

    open spec fn from_spec(v: &str) -> UserTitleLanguage {
        UserTitleLanguage::from_wire_spec(uppercased(trimmed(v@)))
    }
}

/// Reads a wire text as the `&str` conversion does.
impl From<String> for UserTitleLanguage {
    fn from(value: String) -> UserTitleLanguage {
        UserTitleLanguage::from(value.as_str())
    }
}

impl vstd::std_specs::convert::FromSpecImpl<String> for UserTitleLanguage {
    open spec fn obeys_from_spec() -> bool {
        true
    }

    open spec fn from_spec(v: String) -> UserTitleLanguage {
        UserTitleLanguage::from_wire_spec(uppercased(trimmed(v@)))
    }
}

} // verus!
