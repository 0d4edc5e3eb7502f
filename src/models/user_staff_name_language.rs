//! The `UserStaffNameLanguage` enum.
use vstd::prelude::*;

use crate::text::{same_text, to_upper, trim, trimmed, uppercased};

verus! {

/// The language in which a user prefers to read staff names.
#[derive(Debug, Clone, Copy, PartialEq, Eq, Hash, Structural)]
pub enum UserStaffNameLanguage {
    /// Romaji names in Western order.
    RomajiWestern,
    /// Romaji names.
    Romaji,
    /// Native names.
    Native,
}

impl Default for UserStaffNameLanguage {
    fn default() -> (r: UserStaffNameLanguage)
        ensures
            r == UserStaffNameLanguage::Romaji,
    {
        UserStaffNameLanguage::Romaji
    }
}

impl UserStaffNameLanguage {
    /// The variant named by an upper-case wire text; `Romaji` for any text that names none.
    pub open spec fn from_wire_spec(s: Seq<char>) -> UserStaffNameLanguage {
        if s == "ROMAJI_WESTERN"@ {
            UserStaffNameLanguage::RomajiWestern
        } else if s == "ROMAJI"@ {
            UserStaffNameLanguage::Romaji
        } else if s == "NATIVE"@ {
            UserStaffNameLanguage::Native
        } else {
            UserStaffNameLanguage::Romaji
        }
    }

    /// The variant that a wire text reads as, after folding its case.
    pub open spec fn read_spec(raw: Seq<char>) -> UserStaffNameLanguage {
        UserStaffNameLanguage::from_wire_spec(uppercased(trimmed(raw)))
    }

    /// Whether an upper-case wire text names a variant.
    pub open spec fn is_wire_name(s: Seq<char>) -> bool {
        s == "ROMAJI_WESTERN"@
        || s == "ROMAJI"@
        || s == "NATIVE"@
    }

    /// Reads a wire text that is already upper case and trimmed.
    pub fn from_folded(s: &str) -> (r: UserStaffNameLanguage)
        ensures
            r == UserStaffNameLanguage::from_wire_spec(s@),
    {
        if same_text(s, "ROMAJI_WESTERN") {
            UserStaffNameLanguage::RomajiWestern
        } else if same_text(s, "ROMAJI") {
            UserStaffNameLanguage::Romaji
        } else if same_text(s, "NATIVE") {
            UserStaffNameLanguage::Native
        } else {
            UserStaffNameLanguage::Romaji
        }
    }
}

/// Reads a wire text, trimmed and upper-cased first; unknown texts give `Romaji`.
impl From<&str> for UserStaffNameLanguage {
    fn from(value: &str) -> UserStaffNameLanguage {
        let folded = to_upper(trim(value));
        UserStaffNameLanguage::from_folded(folded.as_str())
    }
}

impl vstd::std_specs::convert::FromSpecImpl<&str> for UserStaffNameLanguage {
    open spec fn obeys_from_spec() -> bool {
        true
    }

    open spec fn from_spec(v: &str) -> UserStaffNameLanguage {
        UserStaffNameLanguage::from_wire_spec(uppercased(trimmed(v@)))
    }
}

/// Reads a wire text as the `&str` conversion does.
impl From<String> for UserStaffNameLanguage {
    fn from(value: String) -> UserStaffNameLanguage {
        UserStaffNameLanguage::from(value.as_str())
    }
}

impl vstd::std_specs::convert::FromSpecImpl<String> for UserStaffNameLanguage {
    open spec fn obeys_from_spec() -> bool {
        true
    }

    open spec fn from_spec(v: String) -> UserStaffNameLanguage {
        UserStaffNameLanguage::from_wire_spec(uppercased(trimmed(v@)))
    }
}

} // verus!
