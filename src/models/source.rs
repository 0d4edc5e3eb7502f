//! The `Source` enum.
use vstd::prelude::*;

use crate::text::{ascii_uppercased, same_text, to_ascii_upper};

verus! {

/// The source material a media item was adapted from.
#[derive(Debug, Clone, Copy, PartialEq, Eq, Hash, Structural)]
pub enum Source {
    /// An original work.
    Original,
    /// A manga.
    Manga,
    /// A light novel.
    LightNovel,
    /// A visual novel.
    VisualNovel,
    /// A video game.
    VideoGame,
    /// Another source.
    Other,
    /// A novel.
    Novel,
    /// A doujinshi.
    Doujinshi,
    /// An anime.
    Anime,
    /// A web novel.
    WebNovel,
    /// A live action work.
    LiveAction,
    /// A game.
    Game,
    /// A comic.
    Comic,
    /// A multimedia project.
    MultimediaProject,
    /// A picture book.
    PictureBook,
}

impl Default for Source {
    fn default() -> (r: Source)
        ensures
            r == Source::Other,
    {
        Source::Other
    }
}

impl Source {
    /// The variant named by an upper-case wire text; `Other` for any text that names none.
    pub open spec fn from_wire_spec(s: Seq<char>) -> Source {
        if s == "ORIGINAL"@ {
            Source::Original
        } else if s == "MANGA"@ {
            Source::Manga
        } else if s == "LIGHT_NOVEL"@ {
            Source::LightNovel
        } else if s == "VISUAL_NOVEL"@ {
            Source::VisualNovel
        } else if s == "VIDEO_GAME"@ {
            Source::VideoGame
        } else if s == "OTHER"@ {
            Source::Other
        } else if s == "NOVEL"@ {
            Source::Novel
        } else if s == "DOUJINSHI"@ {
            Source::Doujinshi
        } else if s == "ANIME"@ {
            Source::Anime
        } else if s == "WEB_NOVEL"@ {
            Source::WebNovel
        } else if s == "LIVE_ACTION"@ {
            Source::LiveAction
        } else if s == "GAME"@ {
            Source::Game
        } else if s == "COMIC"@ {
            Source::Comic
        } else if s == "MULTIMEDIA_PROJECT"@ {
            Source::MultimediaProject
        } else if s == "PICTURE_BOOK"@ {
            Source::PictureBook
        } else {
            Source::Other
        }
    }

    /// The variant that a wire text reads as, after folding its case.
    pub open spec fn read_spec(raw: Seq<char>) -> Source {
        Source::from_wire_spec(ascii_uppercased(raw))
    }

    /// Whether an upper-case wire text names a variant.
    pub open spec fn is_wire_name(s: Seq<char>) -> bool {
        s == "ORIGINAL"@
        || s == "MANGA"@
        || s == "LIGHT_NOVEL"@
        || s == "VISUAL_NOVEL"@
        || s == "VIDEO_GAME"@
        || s == "OTHER"@
        || s == "NOVEL"@
        || s == "DOUJINSHI"@
        || s == "ANIME"@
        || s == "WEB_NOVEL"@
        || s == "LIVE_ACTION"@
        || s == "GAME"@
        || s == "COMIC"@
        || s == "MULTIMEDIA_PROJECT"@
        || s == "PICTURE_BOOK"@
    }

    /// Reads a wire text that is already upper case and trimmed.
    pub fn from_folded(s: &str) -> (r: Source)
        ensures
            r == Source::from_wire_spec(s@),
    {
        if same_text(s, "ORIGINAL") {
            Source::Original
        } else if same_text(s, "MANGA") {
            Source::Manga
        } else if same_text(s, "LIGHT_NOVEL") {
            Source::LightNovel
        } else if same_text(s, "VISUAL_NOVEL") {
            Source::VisualNovel
        } else if same_text(s, "VIDEO_GAME") {
            Source::VideoGame
        } else if same_text(s, "OTHER") {
            Source::Other
        } else if same_text(s, "NOVEL") {
            Source::Novel
        } else if same_text(s, "DOUJINSHI") {
            Source::Doujinshi
        } else if same_text(s, "ANIME") {
            Source::Anime
        } else if same_text(s, "WEB_NOVEL") {
            Source::WebNovel
        } else if same_text(s, "LIVE_ACTION") {
            Source::LiveAction
        } else if same_text(s, "GAME") {
            Source::Game
        } else if same_text(s, "COMIC") {
            Source::Comic
        } else if same_text(s, "MULTIMEDIA_PROJECT") {
            Source::MultimediaProject
        } else if same_text(s, "PICTURE_BOOK") {
            Source::PictureBook
        } else {
            Source::Other
        }
    }

    /// The text that `summary` returns for each variant.
    pub open spec fn summary_spec(&self) -> Seq<char> {
        match self {
            Source::Original => "An original production not based of another work"@,
            Source::Manga => "Asian comic book"@,
            Source::LightNovel => "A written work published in volumes primarily targeting young adults and teens"@,
            Source::VisualNovel => "A video game genre that originated in Japan, featuring mostly static graphics"@,
            Source::VideoGame => "An electronic game that involves interaction with a user interface"@,
            Source::Other => "A source that does not fit any other category"@,
            Source::Novel => "A written work not published in volumes"@,
            Source::Doujinshi => "Self-published works"@,
            Source::Anime => "Japanese animated productions"@,
            Source::WebNovel => "A novel published online"@,
            Source::LiveAction => "A work that involves live action rather than animation such as movies or TV shows"@,
            Source::Game => "A competitive activity or sport excluding video games"@,
            Source::Comic => "A publication that consists of comic art in the form of sequential panels excluding manga"@,
            Source::MultimediaProject => "A work that is a collection of multiple media"@,
            Source::PictureBook => "A book with pictures and little text"@,
        }
    }

    /// Returns a summary of the source.
    pub fn summary(&self) -> (r: &str)
        ensures
            r@ == self.summary_spec(),
    {
        match self {
            Source::Original => "An original production not based of another work",
            Source::Manga => "Asian comic book",
            Source::LightNovel => "A written work published in volumes primarily targeting young adults and teens",
            Source::VisualNovel => "A video game genre that originated in Japan, featuring mostly static graphics",
            Source::VideoGame => "An electronic game that involves interaction with a user interface",
            Source::Other => "A source that does not fit any other category",
            Source::Novel => "A written work not published in volumes",
            Source::Doujinshi => "Self-published works",
            Source::Anime => "Japanese animated productions",
            Source::WebNovel => "A novel published online",
            Source::LiveAction => "A work that involves live action rather than animation such as movies or TV shows",
            Source::Game => "A competitive activity or sport excluding video games",
            Source::Comic => "A publication that consists of comic art in the form of sequential panels excluding manga",
            Source::MultimediaProject => "A work that is a collection of multiple media",
            Source::PictureBook => "A book with pictures and little text",
        }
    }

    /// The text that `label` returns for each variant.
    pub open spec fn label_spec(&self) -> Seq<char> {
        match self {
            Source::Original => "Original"@,
            Source::Manga => "Manga"@,
            Source::LightNovel => "Light Novel"@,
            Source::VisualNovel => "Visual Novel"@,
            Source::VideoGame => "Video Game"@,
            Source::Other => "Other"@,
            Source::Novel => "Novel"@,
            Source::Doujinshi => "Doujinshi"@,
            Source::Anime => "Anime"@,
            Source::WebNovel => "Web Novel"@,
            Source::LiveAction => "Live Action"@,
            Source::Game => "Game"@,
            Source::Comic => "Comic"@,
            Source::MultimediaProject => "Multimedia Project"@,
            Source::PictureBook => "Picture Book"@,
        }
    }

    /// Returns the display name of the source.
    pub fn label(&self) -> (r: &str)
        ensures
            r@ == self.label_spec(),
    {
        match self {
            Source::Original => "Original",
            Source::Manga => "Manga",
            Source::LightNovel => "Light Novel",
            Source::VisualNovel => "Visual Novel",
            Source::VideoGame => "Video Game",
            Source::Other => "Other",
            Source::Novel => "Novel",
            Source::Doujinshi => "Doujinshi",
            Source::Anime => "Anime",
            Source::WebNovel => "Web Novel",
            Source::LiveAction => "Live Action",
            Source::Game => "Game",
            Source::Comic => "Comic",
            Source::MultimediaProject => "Multimedia Project",
            Source::PictureBook => "Picture Book",
        }
    }
}

/// Reads a wire text, ASCII upper-cased first; unknown texts give `Other`.
impl From<&str> for Source {
    fn from(value: &str) -> Source {
        let folded = to_ascii_upper(value);
        Source::from_folded(folded.as_str())
    }
}

impl vstd::std_specs::convert::FromSpecImpl<&str> for Source {
    open spec fn obeys_from_spec() -> bool {
        true
    }

    open spec fn from_spec(v: &str) -> Source {
        Source::from_wire_spec(ascii_uppercased(v@))
    }
}

/// Reads a wire text as the `&str` conversion does.
impl From<String> for Source {
    fn from(value: String) -> Source {
        Source::from(value.as_str())
    }
}

impl vstd::std_specs::convert::FromSpecImpl<String> for Source {
    open spec fn obeys_from_spec() -> bool {
        true
    }

    open spec fn from_spec(v: String) -> Source {
        Source::from_wire_spec(ascii_uppercased(v@))
    }
}

} // verus!
