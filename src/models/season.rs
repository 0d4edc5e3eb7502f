//! The `Season` enum.
use vstd::prelude::*;

use crate::text::{same_text, to_upper, trim, trimmed, uppercased};

verus! {

/// One of the four seasons in which anime are released.
#[derive(Debug, Clone, Copy, PartialEq, Eq, Hash, Structural)]
pub enum Season {
    /// The winter season.
    Winter,
    /// The spring season.
    Spring,
    /// The summer season.
    Summer,
    /// The fall season.
    Fall,
}

impl Default for Season {
    fn default() -> (r: Season)
        ensures
            r == Season::Winter,
    {
        Season::Winter
    }
}

impl Season {
    /// The variant named by an upper-case wire text; `Winter` for any text that names none.
    pub open spec fn from_wire_spec(s: Seq<char>) -> Season {
        if s == "WINTER"@ {
            Season::Winter
        } else if s == "SPRING"@ {
            Season::Spring
        } else if s == "SUMMER"@ {
            Season::Summer
        } else if s == "FALL"@ {
            Season::Fall
        } else {
            Season::Winter
        }
    }

    /// The variant that a wire text reads as, after folding its case.
    pub open spec fn read_spec(raw: Seq<char>) -> Season {
        Season::from_wire_spec(uppercased(trimmed(raw)))
    }

    /// Whether an upper-case wire text names a variant.
    pub open spec fn is_wire_name(s: Seq<char>) -> bool {
        s == "WINTER"@
        || s == "SPRING"@
        || s == "SUMMER"@
        || s == "FALL"@
    }

    /// Reads a wire text that is already upper case and trimmed.
    pub fn from_folded(s: &str) -> (r: Season)
        ensures
            r == Season::from_wire_spec(s@),
    {
        if same_text(s, "WINTER") {
            Season::Winter
        } else if same_text(s, "SPRING") {
            Season::Spring
        } else if same_text(s, "SUMMER") {
            Season::Summer
        } else if same_text(s, "FALL") {
            Season::Fall
        } else {
            Season::Winter
        }
    }

    /// The text that `name` returns for each variant.
    pub open spec fn name_spec(&self) -> Seq<char> {
        match self {
            Season::Winter => "Winter"@,
            Season::Spring => "Spring"@,
            Season::Summer => "Summer"@,
            Season::Fall => "Fall"@,
        }
    }

    /// Returns the name of the season.
    pub fn name(&self) -> (r: &str)
        ensures
            r@ == self.name_spec(),
    {
        match self {
            Season::Winter => "Winter",
            Season::Spring => "Spring",
            Season::Summer => "Summer",
            Season::Fall => "Fall",
        }
    }
}

/// Reads a wire text, trimmed and upper-cased first; unknown texts give `Winter`.
impl From<&str> for Season {
    fn from(value: &str) -> Season {
        let folded = to_upper(trim(value));
        Season::from_folded(folded.as_str())
    }
}

impl vstd::std_specs::convert::FromSpecImpl<&str> for Season {
    open spec fn obeys_from_spec() -> bool {
        true
    }

    open spec fn from_spec(v: &str) -> Season {
        Season::from_wire_spec(uppercased(trimmed(v@)))
    }
}

/// Reads a wire text as the `&str` conversion does.
impl From<String> for Season {
    fn from(value: String) -> Season {
        Season::from(value.as_str())
    }
}

impl vstd::std_specs::convert::FromSpecImpl<String> for Season {
    open spec fn obeys_from_spec() -> bool {
        true
    }

    open spec fn from_spec(v: String) -> Season {
        Season::from_wire_spec(uppercased(trimmed(v@)))
    }
}

} // verus!
