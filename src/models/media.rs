//! Media of either kind, the relations between media, and the decoding of the
//! `{edges: [...]}` documents that a media item's characters and relations come as.
//!
//! Unwrapping is lenient, for anime and manga alike: a missing `edges` array
//! gives no items, and an edge that cannot be decoded is skipped on its own.
use vstd::prelude::*;

use crate::client::Client;
use crate::json::{
    bool_fits, fits_bool, fits_int, fits_text, int_fits, text_fits,
    field, flag_field, flag_of, get, i64_field, i64_of, items_of, member_or_null, text_of, text_or_empty, text_or_empty_field, Json,
};
use crate::models::{Anime, Character, CharacterRole, Format, Manga, RelationType};
use crate::text::{or_else, same_text};

verus! {

/// A media item of either kind.
#[derive(Debug, PartialEq)]
pub enum Media {
    /// An anime.
    Anime(Anime),
    /// A manga.
    Manga(Manga),
    /// A media item of a kind that is not known, or that could not be decoded.
    Unknown,
}

impl Default for Media {
    fn default() -> (r: Media)
        ensures
            r is Unknown,
    {
        Media::Unknown
    }
}

impl Media {
    /// Returns the ID of the media; `0` when it is unknown.
    pub fn id(&self) -> (r: i64)
        ensures
            r == match self {
                Media::Anime(a) => a.id,
                Media::Manga(m) => m.id,
                Media::Unknown => 0,
            },
    {
        match self {
            Media::Anime(a) => a.id,
            Media::Manga(m) => m.id,
            Media::Unknown => 0,
        }
    }

    /// Returns the romaji title of the media; `Unknown` when it is unknown.
    pub fn title(&self) -> (r: &str)
        ensures
            r@ == match self {
                Media::Anime(a) => a.title.or_native(a.title.romaji),
                Media::Manga(m) => m.title.or_native(m.title.romaji),
                Media::Unknown => "Unknown"@,
            },
    {
        match self {
            Media::Anime(a) => a.title.romaji(),
            Media::Manga(m) => m.title.romaji(),
            Media::Unknown => "Unknown",
        }
    }

    /// Returns the format of the media, if it is known.
    pub fn format(&self) -> (r: Option<&Format>)
        ensures
            match self {
                Media::Anime(a) => r matches Some(f) && *f == a.format,
                Media::Manga(m) => r matches Some(f) && *f == m.format,
                Media::Unknown => r is None,
            },
    {
        match self {
            Media::Anime(a) => Some(&a.format),
            Media::Manga(m) => Some(&m.format),
            Media::Unknown => None,
        }
    }
}

/// An anime is a media item.
impl From<Anime> for Media {
    fn from(anime: Anime) -> Media {
        Media::Anime(anime)
    }
}

impl vstd::std_specs::convert::FromSpecImpl<Anime> for Media {
    open spec fn obeys_from_spec() -> bool {
        true
    }

    open spec fn from_spec(v: Anime) -> Media {
        Media::Anime(v)
    }
}

/// A manga is a media item.
impl From<Manga> for Media {
    fn from(manga: Manga) -> Media {
        Media::Manga(manga)
    }
}

impl vstd::std_specs::convert::FromSpecImpl<Manga> for Media {
    open spec fn obeys_from_spec() -> bool {
        true
    }

    open spec fn from_spec(v: Manga) -> Media {
        Media::Manga(v)
    }
}

/// A relation from one media item to another.
#[derive(Debug, PartialEq)]
pub struct Relation {
    /// The related media, resolved from the type tag of the edge's node.
    pub media: Media,
    /// The ID of the relation.
    pub id: i64,
    /// The type of the relation.
    pub relation_type: RelationType,
    /// Whether the related studio is the main one.
    pub is_main_studio: bool,
}

impl Relation {
    /// Returns the related media.
    pub fn media(&self) -> (r: &Media)
        ensures
            *r == self.media,
    {
        &self.media
    }
}

/// The items of the `edges` array of a document; none when it has no such array.
pub open spec fn edges_of(doc: Json) -> Seq<Json> {
    items_of(member_or_null(doc, "edges"@))
}

/// What the node of a relation edge decodes to: a partial anime or manga by its
/// `type` tag, when the node decodes as one; else an unknown media.
pub open spec fn media_from_node(m: Media, node: Json, client: Client) -> bool {
    let tag = text_or_empty(field(node, "type"@));
    if tag == "ANIME"@ && Anime::decodes(node) {
        m matches Media::Anime(a) && a.decoded_from(node, client, false)
    } else if tag == "MANGA"@ && Manga::decodes(node) {
        m matches Media::Manga(x) && x.decoded_from(node, client, false)
    } else {
        m is Unknown
    }
}

/// Decodes the node of a relation edge by its type tag.
pub fn media_of_node(node: &Json, client: &Client) -> (r: Media)
    ensures
        media_from_node(r, *node, *client),
{
    proof {
        reveal_strlit("ANIME");
        reveal_strlit("MANGA");
        assert("ANIME"@[0] != "MANGA"@[0]);
    }
    let tag = text_or_empty_field(node, "type");
    if same_text(tag.as_str(), "ANIME") {
        match Anime::from_json(node, client, false) {
            Ok(a) => Media::Anime(a),
            Err(_) => Media::Unknown,
        }
    } else if same_text(tag.as_str(), "MANGA") {
        match Manga::from_json(node, client, false) {
            Ok(m) => Media::Manga(m),
            Err(_) => Media::Unknown,
        }
    } else {
        Media::Unknown
    }
}

/// Whether a character edge is kept: its node decodes as a character.
pub open spec fn character_edge_ok(edge: Json) -> bool {
    Character::decodes(member_or_null(edge, "node"@))
}

/// The character edges that are kept, in order.
pub open spec fn kept_character_edges(edges: Seq<Json>) -> Seq<Json>
    decreases edges.len(),
{
    if edges.len() == 0 {
        Seq::empty()
    } else {
        let prev = kept_character_edges(edges.drop_last());
        if character_edge_ok(edges.last()) {
            prev.push(edges.last())
        } else {
            prev
        }
    }
}

/// Whether `c` is what a character edge gives: its node decoded as a partial
/// character, with the edge's `role` merged in when the edge has one.
pub open spec fn character_from_edge(c: Character, edge: Json, client: Client) -> bool {
    &&& c.matches_json(member_or_null(edge, "node"@))
    &&& c.client == client
    &&& !c.is_full_loaded
    &&& c.role == match text_of(field(edge, "role"@)) {
        Some(s) => Some(CharacterRole::read_spec(s@)),
        None => None,
    }
}

/// Unwraps a `{edges: [{node, role}, ...]}` document into characters, each with
/// the role of its edge; an edge whose node does not decode is skipped.
pub fn unwrap_characters(doc: &Json, client: &Client) -> (r: Vec<Character>)
    ensures
        r@.len() == kept_character_edges(edges_of(*doc)).len(),
        forall|i: int|
            0 <= i < r@.len() ==> character_from_edge(
                #[trigger] r@[i],
                kept_character_edges(edges_of(*doc))[i],
                *client,
            ),
{
    match get(doc, "edges") {
        Some(Json::Array(edges)) => {
            let mut out: Vec<Character> = Vec::new();
            let mut i: usize = 0;
            while i < edges.len()
                invariant
                    i <= edges@.len(),
                    edges_of(*doc) == edges@,
                    out@.len() == kept_character_edges(edges@.subrange(0, i as int)).len(),
                    forall|k: int|
                        0 <= k < out@.len() ==> character_from_edge(
                            #[trigger] out@[k],
                            kept_character_edges(edges@.subrange(0, i as int))[k],
                            *client,
                        ),
                decreases edges.len() - i,
            {
                let ghost before = edges@.subrange(0, i as int);
                let ghost after = edges@.subrange(0, i + 1);
                assert(after.drop_last() =~= before);
                assert(after.last() == edges@[i as int]);
                let edge = &edges[i];
                match get(edge, "node") {
                    Some(node) => match Character::from_json(node, client, false) {
                        Ok(mut c) => {
                            c.role = match get(edge, "role") {
                                Some(Json::Str(s)) => Some(CharacterRole::from(s.as_str())),
                                _ => None,
                            };
                            out.push(c);
                        },
                        Err(_) => {},
                    },
                    None => {},
                }
                i = i + 1;
            }
            assert(edges@.subrange(0, edges@.len() as int) =~= edges@);
            out
        },
        _ => Vec::new(),
    }
}

/// Whether a relation edge is kept: it is an object whose `id`, `relationType`
/// and `isMainStudio` are each absent, `null` or of their expected type.
pub open spec fn relation_edge_ok(edge: Json) -> bool {
    &&& edge is Object
    &&& fits_int(field(edge, "id"@), i64::MIN as int, i64::MAX as int)
    &&& fits_text(field(edge, "relationType"@))
    &&& fits_bool(field(edge, "isMainStudio"@))
}

/// The relation edges that are kept, in order.
pub open spec fn kept_relation_edges(edges: Seq<Json>) -> Seq<Json>
    decreases edges.len(),
{
    if edges.len() == 0 {
        Seq::empty()
    } else {
        let prev = kept_relation_edges(edges.drop_last());
        if relation_edge_ok(edges.last()) {
            prev.push(edges.last())
        } else {
            prev
        }
    }
}

/// Whether `r` is what a relation edge `{node, id, relationType, isMainStudio}` gives.
pub open spec fn relation_from_edge(r: Relation, edge: Json, client: Client) -> bool {
    &&& media_from_node(r.media, member_or_null(edge, "node"@), client)
    &&& r.id == or_else(i64_of(field(edge, "id"@)), 0i64)
    &&& r.relation_type == match text_of(field(edge, "relationType"@)) {
        Some(s) => RelationType::read_spec(s@),
        None => RelationType::Other,
    }
    &&& r.is_main_studio == flag_of(field(edge, "isMainStudio"@))
}

/// Decodes one relation edge.
pub fn relation_of_edge(edge: &Json, client: &Client) -> (r: Relation)
    ensures
        relation_from_edge(r, *edge, *client),
{
    let media = match get(edge, "node") {
        Some(node) => media_of_node(node, client),
        None => media_of_node(&Json::Null, client),
    };
    Relation {
        media,
        id: match i64_field(edge, "id") {
            Some(v) => v,
            None => 0,
        },
        relation_type: match get(edge, "relationType") {
            Some(Json::Str(s)) => RelationType::from(s.as_str()),
            _ => RelationType::Other,
        },
        is_main_studio: flag_field(edge, "isMainStudio"),
    }
}

/// Unwraps a `{edges: [...]}` document into relations; an edge that is not an
/// object, or has a member of the wrong type, is skipped.
pub fn unwrap_relations(doc: &Json, client: &Client) -> (r: Vec<Relation>)
    ensures
        r@.len() == kept_relation_edges(edges_of(*doc)).len(),
        forall|i: int|
            0 <= i < r@.len() ==> relation_from_edge(
                #[trigger] r@[i],
                kept_relation_edges(edges_of(*doc))[i],
                *client,
            ),
{
    match get(doc, "edges") {
        Some(Json::Array(edges)) => {
            let mut out: Vec<Relation> = Vec::new();
            let mut i: usize = 0;
            while i < edges.len()
                invariant
                    i <= edges@.len(),
                    edges_of(*doc) == edges@,
                    out@.len() == kept_relation_edges(edges@.subrange(0, i as int)).len(),
                    forall|k: int|
                        0 <= k < out@.len() ==> relation_from_edge(
                            #[trigger] out@[k],
                            kept_relation_edges(edges@.subrange(0, i as int))[k],
                            *client,
                        ),
                decreases edges.len() - i,
            {
                let ghost before = edges@.subrange(0, i as int);
                let ghost after = edges@.subrange(0, i + 1);
                assert(after.drop_last() =~= before);
                assert(after.last() == edges@[i as int]);
                let edge = &edges[i];
                match edge {
                    Json::Object(_) => {
                        if int_fits(edge, "id", i64::MIN as i128, i64::MAX as i128) && text_fits(
                            edge,
                            "relationType",
                        ) && bool_fits(edge, "isMainStudio") {
                            out.push(relation_of_edge(edge, client));
                        }
                    },
                    _ => {},
                }
                i = i + 1;
            }
            assert(edges@.subrange(0, edges@.len() as int) =~= edges@);
            out
        },
        _ => Vec::new(),
    }
}

} // verus!
