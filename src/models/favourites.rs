//! The `Favourites` struct.
use vstd::prelude::*;

use crate::models::{Anime, Character, Manga, Person, Studio};

verus! {

/// The favourites of a user.
#[derive(Debug, PartialEq)]
pub struct Favourites {
    /// The favourite anime.
    pub anime: Vec<Anime>,
    /// The favourite manga.
    pub manga: Vec<Manga>,
    /// The favourite characters.
    pub characters: Vec<Character>,
    /// The favourite staff.
    pub staff: Vec<Person>,
    /// The favourite studios.
    pub studios: Vec<Studio>,
}

impl Favourites {
    /// Whether every list is empty.
    pub open spec fn is_empty_spec(self) -> bool {
        &&& self.anime@.len() == 0
        &&& self.manga@.len() == 0
        &&& self.characters@.len() == 0
        &&& self.staff@.len() == 0
        &&& self.studios@.len() == 0
    }

    /// Favourites with every list empty.
    pub fn empty() -> (r: Favourites)
        ensures
            r.is_empty_spec(),
    {
        Favourites {
            anime: Vec::new(),
            manga: Vec::new(),
            characters: Vec::new(),
            staff: Vec::new(),
            studios: Vec::new(),
        }
    }
}

/// A notification; the service's notifications carry no fields that are read.
#[derive(Debug, Clone, Copy, PartialEq, Eq, Default, Structural)]
pub struct Notification {}

} // verus!
