//! The `NotificationType` enum.
use vstd::prelude::*;

use crate::text::{same_text, to_upper, trim, trimmed, uppercased};

verus! {

/// The type of a notification.
#[derive(Debug, Clone, Copy, PartialEq, Eq, Hash, Structural)]
pub enum NotificationType {
    /// An activity message.
    ActivityMessage,
    /// An activity reply.
    ActivityReply,
    /// A new follower.
    Following,
    /// An activity mention.
    ActivityMention,
    /// A thread comment mention.
    ThreadCommentMention,
    /// An airing episode.
    Airing,
    /// An activity like.
    ActivityLike,
    /// An activity reply like.
    ActivityReplyLike,
    /// A thread like.
    ThreadLike,
    /// A reply to a subscribed activity.
    ActivityReplySubscribed,
    /// A related media addition.
    RelatedMediaAddition,
    /// A media data change.
    MediaDataChange,
    /// A media merge.
    MediaMerge,
    /// A media deletion.
    MediaDeletion,
}

impl Default for NotificationType {
    fn default() -> (r: NotificationType)
        ensures
            r == NotificationType::ActivityMessage,
    {
        NotificationType::ActivityMessage
    }
}

impl NotificationType {
    /// The variant named by an upper-case wire text; `ActivityMessage` for any text that names none.
    pub open spec fn from_wire_spec(s: Seq<char>) -> NotificationType {
        if s == "ACTIVITY_MESSAGE"@ {
            NotificationType::ActivityMessage
        } else if s == "ACTIVITY_REPLY"@ {
            NotificationType::ActivityReply
        } else if s == "FOLLOWING"@ {
            NotificationType::Following
        } else if s == "ACTIVITY_MENTION"@ {
            NotificationType::ActivityMention
        } else if s == "THREAD_COMMENT_MENTION"@ {
            NotificationType::ThreadCommentMention
        } else if s == "AIRING"@ {
            NotificationType::Airing
        } else if s == "ACTIVITY_LIKE"@ {
            NotificationType::ActivityLike
        } else if s == "ACTIVITY_REPLY_LIKE"@ {
            NotificationType::ActivityReplyLike
        } else if s == "THREAD_LIKE"@ {
            NotificationType::ThreadLike
        } else if s == "ACTIVITY_REPLY_SUBSCRIBED"@ {
            NotificationType::ActivityReplySubscribed
        } else if s == "RELATED_MEDIA_ADDITION"@ {
            NotificationType::RelatedMediaAddition
        } else if s == "MEDIA_DATA_CHANGE"@ {
            NotificationType::MediaDataChange
        } else if s == "MEDIA_MERGE"@ {
            NotificationType::MediaMerge
        } else if s == "MEDIA_DELETION"@ {
            NotificationType::MediaDeletion
        } else {
            NotificationType::ActivityMessage
        }
    }

    /// The variant that a wire text reads as, after folding its case.
    pub open spec fn read_spec(raw: Seq<char>) -> NotificationType {
        NotificationType::from_wire_spec(uppercased(trimmed(raw)))
    }

    /// Whether an upper-case wire text names a variant.
    pub open spec fn is_wire_name(s: Seq<char>) -> bool {
        s == "ACTIVITY_MESSAGE"@
        || s == "ACTIVITY_REPLY"@
        || s == "FOLLOWING"@
        || s == "ACTIVITY_MENTION"@
        || s == "THREAD_COMMENT_MENTION"@
        || s == "AIRING"@
        || s == "ACTIVITY_LIKE"@
        || s == "ACTIVITY_REPLY_LIKE"@
        || s == "THREAD_LIKE"@
        || s == "ACTIVITY_REPLY_SUBSCRIBED"@
        || s == "RELATED_MEDIA_ADDITION"@
        || s == "MEDIA_DATA_CHANGE"@
        || s == "MEDIA_MERGE"@
        || s == "MEDIA_DELETION"@
    }

    /// Reads a wire text that is already upper case and trimmed.
    pub fn from_folded(s: &str) -> (r: NotificationType)
        ensures
            r == NotificationType::from_wire_spec(s@),
    {
        if same_text(s, "ACTIVITY_MESSAGE") {
            NotificationType::ActivityMessage
        } else if same_text(s, "ACTIVITY_REPLY") {
            NotificationType::ActivityReply
        } else if same_text(s, "FOLLOWING") {
            NotificationType::Following
        } else if same_text(s, "ACTIVITY_MENTION") {
            NotificationType::ActivityMention
        } else if same_text(s, "THREAD_COMMENT_MENTION") {
            NotificationType::ThreadCommentMention
        } else if same_text(s, "AIRING") {
            NotificationType::Airing
        } else if same_text(s, "ACTIVITY_LIKE") {
            NotificationType::ActivityLike
        } else if same_text(s, "ACTIVITY_REPLY_LIKE") {
            NotificationType::ActivityReplyLike
        } else if same_text(s, "THREAD_LIKE") {
            NotificationType::ThreadLike
        } else if same_text(s, "ACTIVITY_REPLY_SUBSCRIBED") {
            NotificationType::ActivityReplySubscribed
        } else if same_text(s, "RELATED_MEDIA_ADDITION") {
            NotificationType::RelatedMediaAddition
        } else if same_text(s, "MEDIA_DATA_CHANGE") {
            NotificationType::MediaDataChange
        } else if same_text(s, "MEDIA_MERGE") {
            NotificationType::MediaMerge
        } else if same_text(s, "MEDIA_DELETION") {
            NotificationType::MediaDeletion
        } else {
            NotificationType::ActivityMessage
        }
    }

    /// The text that `label` returns for each variant.
    pub open spec fn label_spec(&self) -> Seq<char> {
        match self {
            NotificationType::ActivityMessage => "Activity Message"@,
            NotificationType::ActivityReply => "Activity Reply"@,
            NotificationType::Following => "Following"@,
            NotificationType::ActivityMention => "Activity Mention"@,
            NotificationType::ThreadCommentMention => "Thread Comment Mention"@,
            NotificationType::Airing => "Airing"@,
            NotificationType::ActivityLike => "Activity Like"@,
            NotificationType::ActivityReplyLike => "Activity Reply Like"@,
            NotificationType::ThreadLike => "Thread Like"@,
            NotificationType::ActivityReplySubscribed => "Activity Reply Subscribed"@,
            NotificationType::RelatedMediaAddition => "Related Media Addition"@,
            NotificationType::MediaDataChange => "Media Data Change"@,
            NotificationType::MediaMerge => "Media Merge"@,
            NotificationType::MediaDeletion => "Media Deletion"@,
        }
    }

    /// Returns the display name of the notification type.
    pub fn label(&self) -> (r: &str)
        ensures
            r@ == self.label_spec(),
    {
        match self {
            NotificationType::ActivityMessage => "Activity Message",
            NotificationType::ActivityReply => "Activity Reply",
            NotificationType::Following => "Following",
            NotificationType::ActivityMention => "Activity Mention",
            NotificationType::ThreadCommentMention => "Thread Comment Mention",
            NotificationType::Airing => "Airing",
            NotificationType::ActivityLike => "Activity Like",
            NotificationType::ActivityReplyLike => "Activity Reply Like",
            NotificationType::ThreadLike => "Thread Like",
            NotificationType::ActivityReplySubscribed => "Activity Reply Subscribed",
            NotificationType::RelatedMediaAddition => "Related Media Addition",
            NotificationType::MediaDataChange => "Media Data Change",
            NotificationType::MediaMerge => "Media Merge",
            NotificationType::MediaDeletion => "Media Deletion",
        }
    }
}

/// Reads a wire text, trimmed and upper-cased first; unknown texts give `ActivityMessage`.
impl From<&str> for NotificationType {
    fn from(value: &str) -> NotificationType {
        let folded = to_upper(trim(value));
        NotificationType::from_folded(folded.as_str())
    }
}

impl vstd::std_specs::convert::FromSpecImpl<&str> for NotificationType {
    open spec fn obeys_from_spec() -> bool {
        true
    }

    open spec fn from_spec(v: &str) -> NotificationType {
        NotificationType::from_wire_spec(uppercased(trimmed(v@)))
    }
}

/// Reads a wire text as the `&str` conversion does.
impl From<String> for NotificationType {
    fn from(value: String) -> NotificationType {
        NotificationType::from(value.as_str())
    }
}

impl vstd::std_specs::convert::FromSpecImpl<String> for NotificationType {
    open spec fn obeys_from_spec() -> bool {
        true
    }

    open spec fn from_spec(v: String) -> NotificationType {
        NotificationType::from_wire_spec(uppercased(trimmed(v@)))
    }
}

} // verus!
