//! The `LinkType` enum.
use vstd::prelude::*;

use crate::text::{same_text, to_upper, trim, trimmed, uppercased};

verus! {

/// The kind of an external link.
#[derive(Debug, Clone, Copy, PartialEq, Eq, Hash, Structural)]
pub enum LinkType {
    /// An information page.
    Info,
    /// A streaming site.
    Streaming,
    /// A social media account.
    Social,
}

impl Default for LinkType {
    fn default() -> (r: LinkType)
        ensures
            r == LinkType::Info,
    {
        LinkType::Info
    }
}

impl LinkType {
    /// The variant named by an upper-case wire text; `Info` for any text that names none.
    pub open spec fn from_wire_spec(s: Seq<char>) -> LinkType {
        if s == "INFO"@ {
            LinkType::Info
        } else if s == "STREAMING"@ {
            LinkType::Streaming
        } else if s == "SOCIAL"@ {
            LinkType::Social
        } else {
            LinkType::Info
        }
    }

    /// The variant that a wire text reads as, after folding its case.
    pub open spec fn read_spec(raw: Seq<char>) -> LinkType {
        LinkType::from_wire_spec(uppercased(trimmed(raw)))
    }

    /// Whether an upper-case wire text names a variant.
    pub open spec fn is_wire_name(s: Seq<char>) -> bool {
        s == "INFO"@
        || s == "STREAMING"@
        || s == "SOCIAL"@
    }

    /// Reads a wire text that is already upper case and trimmed.
    pub fn from_folded(s: &str) -> (r: LinkType)
        ensures
            r == LinkType::from_wire_spec(s@),
    {
        if same_text(s, "INFO") {
            LinkType::Info
        } else if same_text(s, "STREAMING") {
            LinkType::Streaming
        } else if same_text(s, "SOCIAL") {
            LinkType::Social
        } else {
            LinkType::Info
        }
    }

    /// The text that `label` returns for each variant.
    pub open spec fn label_spec(&self) -> Seq<char> {
        match self {
            LinkType::Info => "Info"@,
            LinkType::Streaming => "Streaming"@,
            LinkType::Social => "Social"@,
        }
    }

    /// Returns the display name of the link type.
    pub fn label(&self) -> (r: &str)
        ensures
            r@ == self.label_spec(),
    {
        match self {
            LinkType::Info => "Info",
            LinkType::Streaming => "Streaming",
            LinkType::Social => "Social",
        }
    }
}

/// Reads a wire text, trimmed and upper-cased first; unknown texts give `Info`.
impl From<&str> for LinkType {
    fn from(value: &str) -> LinkType {
        let folded = to_upper(trim(value));
        LinkType::from_folded(folded.as_str())
    }
}

impl vstd::std_specs::convert::FromSpecImpl<&str> for LinkType {
    open spec fn obeys_from_spec() -> bool {
        true
    }

    open spec fn from_spec(v: &str) -> LinkType {
        LinkType::from_wire_spec(uppercased(trimmed(v@)))
    }
}

/// Reads a wire text as the `&str` conversion does.
impl From<String> for LinkType {
    fn from(value: String) -> LinkType {
        LinkType::from(value.as_str())
    }
}

impl vstd::std_specs::convert::FromSpecImpl<String> for LinkType {
    open spec fn obeys_from_spec() -> bool {
        true
    }

    open spec fn from_spec(v: String) -> LinkType {
        LinkType::from_wire_spec(uppercased(trimmed(v@)))
    }
}

} // verus!
