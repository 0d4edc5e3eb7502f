//! The `Format` enum.
use vstd::prelude::*;

use crate::text::{same_text, to_upper, trim, trimmed, uppercased};

verus! {

/// The format of a media item: a TV show, a movie, a manga, a novel and so on.
#[derive(Debug, Clone, Copy, PartialEq, Eq, Hash, Structural)]
pub enum Format {
    /// A TV show.
    Tv,
    /// A short TV show.
    TvShort,
    /// A movie.
    Movie,
    /// A special.
    Special,
    /// An original video animation.
    Ova,
    /// An original net animation.
    Ona,
    /// A music video.
    Music,
    /// A manga.
    Manga,
    /// A novel.
    Novel,
    /// A one-shot.
    OneShot,
}

impl Default for Format {
    fn default() -> (r: Format)
        ensures
            r == Format::Tv,
    {
        Format::Tv
    }
}

impl Format {
    /// The variant named by an upper-case wire text; `Tv` for any text that names none.
    pub open spec fn from_wire_spec(s: Seq<char>) -> Format {
        if s == "TV"@ {
            Format::Tv
        } else if s == "TV_SHORT"@ {
            Format::TvShort
        } else if s == "MOVIE"@ {
            Format::Movie
        } else if s == "SPECIAL"@ {
            Format::Special
        } else if s == "OVA"@ {
            Format::Ova
        } else if s == "ONA"@ {
            Format::Ona
        } else if s == "MUSIC"@ {
            Format::Music
        } else if s == "MANGA"@ {
            Format::Manga
        } else if s == "NOVEL"@ {
            Format::Novel
        } else if s == "ONE_SHOT"@ {
            Format::OneShot
        } else {
            Format::Tv
        }
    }

    /// The variant that a wire text reads as, after folding its case.
    pub open spec fn read_spec(raw: Seq<char>) -> Format {
        Format::from_wire_spec(uppercased(trimmed(raw)))
    }

    /// Whether an upper-case wire text names a variant.
    pub open spec fn is_wire_name(s: Seq<char>) -> bool {
        s == "TV"@
        || s == "TV_SHORT"@
        || s == "MOVIE"@
        || s == "SPECIAL"@
        || s == "OVA"@
        || s == "ONA"@
        || s == "MUSIC"@
        || s == "MANGA"@
        || s == "NOVEL"@
        || s == "ONE_SHOT"@
    }

    /// Reads a wire text that is already upper case and trimmed.
    pub fn from_folded(s: &str) -> (r: Format)
        ensures
            r == Format::from_wire_spec(s@),
    {
        if same_text(s, "TV") {
            Format::Tv
        } else if same_text(s, "TV_SHORT") {
            Format::TvShort
        } else if same_text(s, "MOVIE") {
            Format::Movie
        } else if same_text(s, "SPECIAL") {
            Format::Special
        } else if same_text(s, "OVA") {
            Format::Ova
        } else if same_text(s, "ONA") {
            Format::Ona
        } else if same_text(s, "MUSIC") {
            Format::Music
        } else if same_text(s, "MANGA") {
            Format::Manga
        } else if same_text(s, "NOVEL") {
            Format::Novel
        } else if same_text(s, "ONE_SHOT") {
            Format::OneShot
        } else {
            Format::Tv
        }
    }

    /// The text that `name` returns for each variant.
    pub open spec fn name_spec(&self) -> Seq<char> {
        match self {
            Format::Tv => "TV"@,
            Format::TvShort => "TV Short"@,
            Format::Movie => "Movie"@,
            Format::Special => "Special"@,
            Format::Ova => "OVA"@,
            Format::Ona => "ONA"@,
            Format::Music => "Music"@,
            Format::Manga => "Manga"@,
            Format::Novel => "Novel"@,
            Format::OneShot => "One-Shot"@,
        }
    }

    /// Returns the name of the format.
    pub fn name(&self) -> (r: &str)
        ensures
            r@ == self.name_spec(),
    {
        match self {
            Format::Tv => "TV",
            Format::TvShort => "TV Short",
            Format::Movie => "Movie",
            Format::Special => "Special",
            Format::Ova => "OVA",
            Format::Ona => "ONA",
            Format::Music => "Music",
            Format::Manga => "Manga",
            Format::Novel => "Novel",
            Format::OneShot => "One-Shot",
        }
    }

    /// The text that `summary` returns for each variant.
    pub open spec fn summary_spec(&self) -> Seq<char> {
        match self {
            Format::Tv => "Anime broadcast on television"@,
            Format::TvShort => "Anime which are under 15 minutes in length and broadcast on television"@,
            Format::Movie => "Anime movies with a theatrical release"@,
            Format::Special => "Special episodes that have been included in DVD/Blu-ray releases, picture dramas, pilots, etc"@,
            Format::Ova => "(Original Video Animation) Anime that have been released directly on DVD/Blu-ray without originally going through a theatrical release or television broadcast"@,
            Format::Ona => "(Original Net Animation) Anime that have been originally released online or are only available through streaming services."@,
            Format::Music => "Short anime released as a music video"@,
            Format::Manga => "Professionally published manga with more than one chapter"@,
            Format::Novel => "Written books released as a series of light novels"@,
            Format::OneShot => "Manga with just one chapter"@,
        }
    }

    /// Returns a summary of the format.
    pub fn summary(&self) -> (r: &str)
        ensures
            r@ == self.summary_spec(),
    {
        match self {
            Format::Tv => "Anime broadcast on television",
            Format::TvShort => "Anime which are under 15 minutes in length and broadcast on television",
            Format::Movie => "Anime movies with a theatrical release",
            Format::Special => "Special episodes that have been included in DVD/Blu-ray releases, picture dramas, pilots, etc",
            Format::Ova => "(Original Video Animation) Anime that have been released directly on DVD/Blu-ray without originally going through a theatrical release or television broadcast",
            Format::Ona => "(Original Net Animation) Anime that have been originally released online or are only available through streaming services.",
            Format::Music => "Short anime released as a music video",
            Format::Manga => "Professionally published manga with more than one chapter",
            Format::Novel => "Written books released as a series of light novels",
            Format::OneShot => "Manga with just one chapter",
        }
    }
}

/// Reads a wire text, trimmed and upper-cased first; unknown texts give `Tv`.
impl From<&str> for Format {
    fn from(value: &str) -> Format {
        let folded = to_upper(trim(value));
        Format::from_folded(folded.as_str())
    }
}

impl vstd::std_specs::convert::FromSpecImpl<&str> for Format {
    open spec fn obeys_from_spec() -> bool {
        true
    }

    open spec fn from_spec(v: &str) -> Format {
        Format::from_wire_spec(uppercased(trimmed(v@)))
    }
}

/// Reads a wire text as the `&str` conversion does.
impl From<String> for Format {
    fn from(value: String) -> Format {
        Format::from(value.as_str())
    }
}

impl vstd::std_specs::convert::FromSpecImpl<String> for Format {
    open spec fn obeys_from_spec() -> bool {
        true
    }

    open spec fn from_spec(v: String) -> Format {
        Format::from_wire_spec(uppercased(trimmed(v@)))
    }
}

} // verus!
