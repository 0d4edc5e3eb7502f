//! The `Status` enum.
use vstd::prelude::*;

use crate::text::{same_text, to_upper, trim, trimmed, uppercased};

verus! {

/// The release status of a media item, or of an entry in a user's list.
#[derive(Debug, Clone, Copy, PartialEq, Eq, Hash, Structural)]
pub enum Status {
    /// The media is finished.
    Finished,
    /// The media is currently releasing.
    Releasing,
    /// The media is not yet released.
    NotYetReleased,
    /// The media has been cancelled.
    Cancelled,
    /// The media is on hiatus.
    Hiatus,
    /// The media is currently ongoing.
    Current,
    /// The media is planned for future release.
    Planning,
    /// The media is completed.
    Completed,
    /// The media has been dropped.
    Dropped,
    /// The media is paused.
    Paused,
    /// The media is repeating.
    Repeating,
}

impl Default for Status {
    fn default() -> (r: Status)
        ensures
            r == Status::NotYetReleased,
    {
        Status::NotYetReleased
    }
}

impl Status {
    /// The variant named by an upper-case wire text; `NotYetReleased` for any text that names none.
    pub open spec fn from_wire_spec(s: Seq<char>) -> Status {
        if s == "FINISHED"@ {
            Status::Finished
        } else if s == "RELEASING"@ {
            Status::Releasing
        } else if s == "NOT_YET_RELEASED"@ {
            Status::NotYetReleased
        } else if s == "CANCELLED"@ {
            Status::Cancelled
        } else if s == "HIATUS"@ {
            Status::Hiatus
        } else if s == "CURRENT"@ {
            Status::Current
        } else if s == "PLANNING"@ {
            Status::Planning
        } else if s == "COMPLETED"@ {
            Status::Completed
        } else if s == "DROPPED"@ {
            Status::Dropped
        } else if s == "PAUSED"@ {
            Status::Paused
        } else if s == "REPEATING"@ {
            Status::Repeating
        } else {
            Status::NotYetReleased
        }
    }

    /// The variant that a wire text reads as, after folding its case.
    pub open spec fn read_spec(raw: Seq<char>) -> Status {
        Status::from_wire_spec(uppercased(trimmed(raw)))
    }

    /// Whether an upper-case wire text names a variant.
    pub open spec fn is_wire_name(s: Seq<char>) -> bool {
        s == "FINISHED"@
        || s == "RELEASING"@
        || s == "NOT_YET_RELEASED"@
        || s == "CANCELLED"@
        || s == "HIATUS"@
        || s == "CURRENT"@
        || s == "PLANNING"@
        || s == "COMPLETED"@
        || s == "DROPPED"@
        || s == "PAUSED"@
        || s == "REPEATING"@
    }

    /// Reads a wire text that is already upper case and trimmed.
    pub fn from_folded(s: &str) -> (r: Status)
        ensures
            r == Status::from_wire_spec(s@),
    {
        if same_text(s, "FINISHED") {
            Status::Finished
        } else if same_text(s, "RELEASING") {
            Status::Releasing
        } else if same_text(s, "NOT_YET_RELEASED") {
            Status::NotYetReleased
        } else if same_text(s, "CANCELLED") {
            Status::Cancelled
        } else if same_text(s, "HIATUS") {
            Status::Hiatus
        } else if same_text(s, "CURRENT") {
            Status::Current
        } else if same_text(s, "PLANNING") {
            Status::Planning
        } else if same_text(s, "COMPLETED") {
            Status::Completed
        } else if same_text(s, "DROPPED") {
            Status::Dropped
        } else if same_text(s, "PAUSED") {
            Status::Paused
        } else if same_text(s, "REPEATING") {
            Status::Repeating
        } else {
            Status::NotYetReleased
        }
    }

    /// The text that `summary` returns for each variant.
    pub open spec fn summary_spec(&self) -> Seq<char> {
        match self {
            Status::Finished => "Has completed and is no longer being updated."@,
            Status::Releasing => "Currently releasing."@,
            Status::NotYetReleased => "To be released in the future."@,
            Status::Cancelled => "Ended before the work could be completed."@,
            Status::Hiatus => "Currently paused with the intention of resuming in the future."@,
            Status::Current => "Currently being updated."@,
            Status::Planning => "Planned for future release."@,
            Status::Completed => "Has completed and is no longer being updated."@,
            Status::Dropped => "No longer being updated due to a lack of interest or other reasons."@,
            Status::Paused => "Currently paused."@,
            Status::Repeating => "Repeating the same content."@,
        }
    }

    /// Returns a summary of the status.
    pub fn summary(&self) -> (r: &str)
        ensures
            r@ == self.summary_spec(),
    {
        match self {
            Status::Finished => "Has completed and is no longer being updated.",
            Status::Releasing => "Currently releasing.",
            Status::NotYetReleased => "To be released in the future.",
            Status::Cancelled => "Ended before the work could be completed.",
            Status::Hiatus => "Currently paused with the intention of resuming in the future.",
            Status::Current => "Currently being updated.",
            Status::Planning => "Planned for future release.",
            Status::Completed => "Has completed and is no longer being updated.",
            Status::Dropped => "No longer being updated due to a lack of interest or other reasons.",
            Status::Paused => "Currently paused.",
            Status::Repeating => "Repeating the same content.",
        }
    }

    /// The text that `label` returns for each variant.
    pub open spec fn label_spec(&self) -> Seq<char> {
        match self {
            Status::Finished => "Finished"@,
            Status::Releasing => "Releasing"@,
            Status::NotYetReleased => "Not Yet Released"@,
            Status::Cancelled => "Cancelled"@,
            Status::Hiatus => "Hiatus"@,
            Status::Current => "Current"@,
            Status::Planning => "Planning"@,
            Status::Completed => "Completed"@,
            Status::Dropped => "Dropped"@,
            Status::Paused => "Paused"@,
            Status::Repeating => "Repeating"@,
        }
    }

    /// Returns the display name of the status.
    pub fn label(&self) -> (r: &str)
        ensures
            r@ == self.label_spec(),
    {
        match self {
            Status::Finished => "Finished",
            Status::Releasing => "Releasing",
            Status::NotYetReleased => "Not Yet Released",
            Status::Cancelled => "Cancelled",
            Status::Hiatus => "Hiatus",
            Status::Current => "Current",
            Status::Planning => "Planning",
            Status::Completed => "Completed",
            Status::Dropped => "Dropped",
            Status::Paused => "Paused",
            Status::Repeating => "Repeating",
        }
    }
}

/// Reads a wire text, trimmed and upper-cased first; unknown texts give `NotYetReleased`.
impl From<&str> for Status {
    fn from(value: &str) -> Status {
        let folded = to_upper(trim(value));
        Status::from_folded(folded.as_str())
    }
}

impl vstd::std_specs::convert::FromSpecImpl<&str> for Status {
    open spec fn obeys_from_spec() -> bool {
        true
    }

    open spec fn from_spec(v: &str) -> Status {
        Status::from_wire_spec(uppercased(trimmed(v@)))
    }
}

/// Reads a wire text as the `&str` conversion does.
impl From<String> for Status {
    fn from(value: String) -> Status {
        Status::from(value.as_str())
    }
}

impl vstd::std_specs::convert::FromSpecImpl<String> for Status {
    open spec fn obeys_from_spec() -> bool {
        true
    }

    open spec fn from_spec(v: String) -> Status {
        Status::from_wire_spec(uppercased(trimmed(v@)))
    }
}

} // verus!
