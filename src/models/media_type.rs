//! The `MediaType` enum.
use vstd::prelude::*;

verus! {

/// The kinds of entity the service serves.
#[derive(Debug, Clone, Copy, PartialEq, Eq, Hash, Structural)]
pub enum MediaType {
    /// An anime.
    Anime,
    /// A manga.
    Manga,
    /// A character.
    Character,
    /// A user.
    User,
    /// A person (staff).
    Person,
    /// A studio.
    Studio,
    /// An unknown kind.
    Unknown,
}

impl Default for MediaType {
    fn default() -> (r: MediaType)
        ensures
            r == MediaType::Unknown,
    {
        MediaType::Unknown
    }
}

} // verus!
