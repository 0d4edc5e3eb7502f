//! The `Gender` enum.
use vstd::prelude::*;

use crate::text::{same_text, to_upper, trim, trimmed, uppercased};

verus! {

/// The gender of a person or a character.
#[derive(Debug, Clone, PartialEq, Eq, Hash)]
pub enum Gender {
    /// Male.
    Male,
    /// Female.
    Female,
    /// Non-binary.
    NonBinary,
    /// Any other gender, as written.
    Other(String),
}

impl Default for Gender {
    fn default() -> (r: Gender)
        ensures
            r matches Gender::Other(s) && s@ == "Neutral"@,
    {
        Gender::Other("Neutral".to_string())
    }
}

impl Gender {
    /// Whether two genders are the same, comparing other genders by their characters.
    pub open spec fn same(a: Gender, b: Gender) -> bool {
        match (a, b) {
            (Gender::Other(x), Gender::Other(y)) => x@ == y@,
            _ => a == b,
        }
    }

    /// Whether two optional genders are both absent or the same.
    pub open spec fn same_option(a: Option<Gender>, b: Option<Gender>) -> bool {
        match (a, b) {
            (Some(x), Some(y)) => Gender::same(x, y),
            (None, None) => true,
            _ => false,
        }
    }

    /// Whether `g` is what the wire text `raw` reads as: `Male`, `Female` or
    /// `Non-binary` in any case and trimmed, else the text as given.
    pub open spec fn read_spec(g: Gender, raw: Seq<char>) -> bool {
        let f = uppercased(trimmed(raw));
        if f == "MALE"@ {
            g == Gender::Male
        } else if f == "FEMALE"@ {
            g == Gender::Female
        } else if f == "NON-BINARY"@ {
            g == Gender::NonBinary
        } else {
            g matches Gender::Other(s) && s@ == raw
        }
    }

    /// Reads a gender from its wire text.
    pub fn from_wire(value: &str) -> (r: Gender)
        ensures
            Gender::read_spec(r, value@),
    {
        let folded = to_upper(trim(value));
        if same_text(folded.as_str(), "MALE") {
            Gender::Male
        } else if same_text(folded.as_str(), "FEMALE") {
            Gender::Female
        } else if same_text(folded.as_str(), "NON-BINARY") {
            Gender::NonBinary
        } else {
            Gender::Other(value.to_string())
        }
    }
}

} // verus!
