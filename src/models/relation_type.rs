//! The `RelationType` enum.
use vstd::prelude::*;

use crate::text::{same_text, to_upper, trim, trimmed, uppercased};

verus! {

/// The type of relation between two media items.
#[derive(Debug, Clone, Copy, PartialEq, Eq, Hash, Structural)]
pub enum RelationType {
    /// An adaptation of another work.
    Adaptation,
    /// A prequel to another work.
    Prequel,
    /// A sequel to another work.
    Sequel,
    /// The parent story of another work.
    Parent,
    /// A side story of another work.
    SideStory,
    /// Shares characters with another work.
    Character,
    /// A summary of another work.
    Summary,
    /// An alternative version of another work.
    Alternative,
    /// A spin-off of another work.
    SpinOff,
    /// Some other relation.
    Other,
    /// The source material of another work.
    Source,
    /// A compilation of another work.
    Compilation,
    /// Contains another work.
    Contains,
}

impl Default for RelationType {
    fn default() -> (r: RelationType)
        ensures
            r == RelationType::Other,
    {
        RelationType::Other
    }
}

impl RelationType {
    /// The variant named by an upper-case wire text; `Other` for any text that names none.
    pub open spec fn from_wire_spec(s: Seq<char>) -> RelationType {
        if s == "ADAPTATION"@ {
            RelationType::Adaptation
        } else if s == "PREQUEL"@ {
            RelationType::Prequel
        } else if s == "SEQUEL"@ {
            RelationType::Sequel
        } else if s == "PARENT"@ {
            RelationType::Parent
        } else if s == "SIDE_STORY"@ {
            RelationType::SideStory
        } else if s == "CHARACTER"@ {
            RelationType::Character
        } else if s == "SUMMARY"@ {
            RelationType::Summary
        } else if s == "ALTERNATIVE"@ {
            RelationType::Alternative
        } else if s == "SPIN_OFF"@ {
            RelationType::SpinOff
        } else if s == "OTHER"@ {
            RelationType::Other
        } else if s == "SOURCE"@ {
            RelationType::Source
        } else if s == "COMPILATION"@ {
            RelationType::Compilation
        } else if s == "CONTAINS"@ {
            RelationType::Contains
        } else {
            RelationType::Other
        }
    }

    /// The variant that a wire text reads as, after folding its case.
    pub open spec fn read_spec(raw: Seq<char>) -> RelationType {
        RelationType::from_wire_spec(uppercased(trimmed(raw)))
    }

    /// Whether an upper-case wire text names a variant.
    pub open spec fn is_wire_name(s: Seq<char>) -> bool {
        s == "ADAPTATION"@
        || s == "PREQUEL"@
        || s == "SEQUEL"@
        || s == "PARENT"@
        || s == "SIDE_STORY"@
        || s == "CHARACTER"@
        || s == "SUMMARY"@
        || s == "ALTERNATIVE"@
        || s == "SPIN_OFF"@
        || s == "OTHER"@
        || s == "SOURCE"@
        || s == "COMPILATION"@
        || s == "CONTAINS"@
    }

    /// Reads a wire text that is already upper case and trimmed.
    pub fn from_folded(s: &str) -> (r: RelationType)
        ensures
            r == RelationType::from_wire_spec(s@),
    {
        if same_text(s, "ADAPTATION") {
            RelationType::Adaptation
        } else if same_text(s, "PREQUEL") {
            RelationType::Prequel
        } else if same_text(s, "SEQUEL") {
            RelationType::Sequel
        } else if same_text(s, "PARENT") {
            RelationType::Parent
        } else if same_text(s, "SIDE_STORY") {
            RelationType::SideStory
        } else if same_text(s, "CHARACTER") {
            RelationType::Character
        } else if same_text(s, "SUMMARY") {
            RelationType::Summary
        } else if same_text(s, "ALTERNATIVE") {
            RelationType::Alternative
        } else if same_text(s, "SPIN_OFF") {
            RelationType::SpinOff
        } else if same_text(s, "OTHER") {
            RelationType::Other
        } else if same_text(s, "SOURCE") {
            RelationType::Source
        } else if same_text(s, "COMPILATION") {
            RelationType::Compilation
        } else if same_text(s, "CONTAINS") {
            RelationType::Contains
        } else {
            RelationType::Other
        }
    }

    /// The text that `summary` returns for each variant.
    pub open spec fn summary_spec(&self) -> Seq<char> {
        match self {
            RelationType::Adaptation => "An adaption of this media into a different format"@,
            RelationType::Prequel => "Released before the relation"@,
            RelationType::Sequel => "Released after the relation"@,
            RelationType::Parent => "The media a side story is from"@,
            RelationType::SideStory => "A side story of the parent media"@,
            RelationType::Character => "Shares at least 1 character"@,
            RelationType::Summary => "A shortened and summarized version"@,
            RelationType::Alternative => "An alternative version of the same media"@,
            RelationType::SpinOff => "An alternative version of the media with a different primary focus"@,
            RelationType::Other => "Other"@,
            RelationType::Source => "The source material the media was adapted from"@,
            RelationType::Compilation => "A compilation of the media"@,
            RelationType::Contains => "A media that contains the relation"@,
        }
    }

    /// Returns a summary of the relation type.
    pub fn summary(&self) -> (r: &str)
        ensures
            r@ == self.summary_spec(),
    {
        match self {
            RelationType::Adaptation => "An adaption of this media into a different format",
            RelationType::Prequel => "Released before the relation",
            RelationType::Sequel => "Released after the relation",
            RelationType::Parent => "The media a side story is from",
            RelationType::SideStory => "A side story of the parent media",
            RelationType::Character => "Shares at least 1 character",
            RelationType::Summary => "A shortened and summarized version",
            RelationType::Alternative => "An alternative version of the same media",
            RelationType::SpinOff => "An alternative version of the media with a different primary focus",
            RelationType::Other => "Other",
            RelationType::Source => "The source material the media was adapted from",
            RelationType::Compilation => "A compilation of the media",
            RelationType::Contains => "A media that contains the relation",
        }
    }
}

/// Reads a wire text, trimmed and upper-cased first; unknown texts give `Other`.
impl From<&str> for RelationType {
    fn from(value: &str) -> RelationType {
        let folded = to_upper(trim(value));
        RelationType::from_folded(folded.as_str())
    }
}

impl vstd::std_specs::convert::FromSpecImpl<&str> for RelationType {
    open spec fn obeys_from_spec() -> bool {
        true
    }

    open spec fn from_spec(v: &str) -> RelationType {
        RelationType::from_wire_spec(uppercased(trimmed(v@)))
    }
}

/// Reads a wire text as the `&str` conversion does.
impl From<String> for RelationType {
    fn from(value: String) -> RelationType {
        RelationType::from(value.as_str())
    }
}

impl vstd::std_specs::convert::FromSpecImpl<String> for RelationType {
    open spec fn obeys_from_spec() -> bool {
        true
    }

    open spec fn from_spec(v: String) -> RelationType {
        RelationType::from_wire_spec(uppercased(trimmed(v@)))
    }
}

} // verus!
