//! The `CharacterRole` enum.
use vstd::prelude::*;

use crate::text::{same_text, to_upper, trim, trimmed, uppercased};

verus! {

/// The role a character plays in one media item; it belongs to the edge between the two, not to the character.
#[derive(Debug, Clone, Copy, PartialEq, Eq, Hash, Structural)]
pub enum CharacterRole {
    /// A main character.
    Main,
    /// A supporting character.
    Supporting,
    /// A background character.
    Background,
}

impl Default for CharacterRole {
    fn default() -> (r: CharacterRole)
        ensures
            r == CharacterRole::Background,
    {
        CharacterRole::Background
    }
}

impl CharacterRole {
    /// The variant named by an upper-case wire text; `Background` for any text that names none.
    pub open spec fn from_wire_spec(s: Seq<char>) -> CharacterRole {
        if s == "MAIN"@ {
            CharacterRole::Main
        } else if s == "SUPPORTING"@ {
            CharacterRole::Supporting
        } else if s == "BACKGROUND"@ {
            CharacterRole::Background
        } else {
            CharacterRole::Background
        }
    }

    /// The variant that a wire text reads as, after folding its case.
    pub open spec fn read_spec(raw: Seq<char>) -> CharacterRole {
        CharacterRole::from_wire_spec(uppercased(trimmed(raw)))
    }

    /// Whether an upper-case wire text names a variant.
    pub open spec fn is_wire_name(s: Seq<char>) -> bool {
        s == "MAIN"@
        || s == "SUPPORTING"@
        || s == "BACKGROUND"@
    }

    /// Reads a wire text that is already upper case and trimmed.
    pub fn from_folded(s: &str) -> (r: CharacterRole)
        ensures
            r == CharacterRole::from_wire_spec(s@),
    {
        if same_text(s, "MAIN") {
            CharacterRole::Main
        } else if same_text(s, "SUPPORTING") {
            CharacterRole::Supporting
        } else if same_text(s, "BACKGROUND") {
            CharacterRole::Background
        } else {
            CharacterRole::Background
        }
    }

    /// The text that `label` returns for each variant.
    pub open spec fn label_spec(&self) -> Seq<char> {
        match self {
            CharacterRole::Main => "Main"@,
            CharacterRole::Supporting => "Supporting"@,
            CharacterRole::Background => "Background"@,
        }
    }

    /// Returns the display name of the role.
    pub fn label(&self) -> (r: &str)
        ensures
            r@ == self.label_spec(),
    {
        match self {
            CharacterRole::Main => "Main",
            CharacterRole::Supporting => "Supporting",
            CharacterRole::Background => "Background",
        }
    }
}

/// Reads a wire text, trimmed and upper-cased first; unknown texts give `Background`.
impl From<&str> for CharacterRole {
    fn from(value: &str) -> CharacterRole {
        let folded = to_upper(trim(value));
        CharacterRole::from_folded(folded.as_str())
    }
}

impl vstd::std_specs::convert::FromSpecImpl<&str> for CharacterRole {
    open spec fn obeys_from_spec() -> bool {
        true
    }

    open spec fn from_spec(v: &str) -> CharacterRole {
        CharacterRole::from_wire_spec(uppercased(trimmed(v@)))
    }
}

/// Reads a wire text as the `&str` conversion does.
impl From<String> for CharacterRole {
    fn from(value: String) -> CharacterRole {
        CharacterRole::from(value.as_str())
    }
}

impl vstd::std_specs::convert::FromSpecImpl<String> for CharacterRole {
    open spec fn obeys_from_spec() -> bool {
        true
    }

    open spec fn from_spec(v: String) -> CharacterRole {
        CharacterRole::from_wire_spec(uppercased(trimmed(v@)))
    }
}

} // verus!
