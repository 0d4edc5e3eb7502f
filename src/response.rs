//! Turning the service's responses into records: the `errors` list, the
//! `data` subtree of each operation, search pages and the full loading of a
//! record that a search returned.
use vstd::prelude::*;

use crate::client::{bearer, payload, Action, Client, Request, Variables};
use crate::error::Error;
use crate::json::{
    field, get, i32_of, i64_of, member_or_null, take_member, take_two, text_or_empty,
    text_or_empty_field, Json,
};
use crate::models::{
    unwrap_characters, unwrap_relations, Anime, Character, Manga, MediaType, Person, Relation, User,
    character_from_edge, edges_of, kept_character_edges, kept_relation_edges, relation_from_edge,
};
use crate::queries::{GET_ANIME, GET_MANGA, GET_USER};

verus! {

/// The message of the first error that a response reports, if it reports any.
pub open spec fn api_error_of(env: Json) -> Option<Seq<char>> {
    match field(env, "errors"@) {
        Some(Json::Array(errs)) => if errs@.len() > 0 {
            Some(text_or_empty(field(errs@[0], "message"@)))
        } else {
            None
        },
        _ => None,
    }
}

/// Returns the message of the first error that a response reports, if any.
pub fn api_error(env: &Json) -> (r: Option<String>)
    ensures
        match api_error_of(*env) {
            Some(m) => r matches Some(s) && s@ == m,
            None => r is None,
        },
{
    match get(env, "errors") {
        Some(Json::Array(errs)) => if errs.len() > 0 {
            Some(text_or_empty_field(&errs[0], "message"))
        } else {
            None
        },
        _ => None,
    }
}

/// The subtree `data.<key>` of a response; `null` when it is missing.
pub open spec fn data_of(env: Json, key: Seq<char>) -> Json {
    member_or_null(member_or_null(env, "data"@), key)
}

/// Takes the subtree `data.<key>` out of a response.
pub fn take_data(env: Json, key: &str) -> (r: Json)
    ensures
        r == data_of(env, key@),
{
    take_member(take_member(env, "data"), key)
}

/// The items of `data.Page.<key>` of a search response, when it is an array.
pub open spec fn page_items(env: Json, key: Seq<char>) -> Option<Seq<Json>> {
    match field(member_or_null(member_or_null(env, "data"@), "Page"@), key) {
        Some(Json::Array(items)) => Some(items@),
        _ => None,
    }
}

/// The items of a search page that decode as anime, in order.
pub open spec fn anime_items(items: Seq<Json>) -> Seq<Json>
    decreases items.len(),
{
    if items.len() == 0 {
        Seq::empty()
    } else {
        let prev = anime_items(items.drop_last());
        if Anime::decodes(items.last()) {
            prev.push(items.last())
        } else {
            prev
        }
    }
}

/// The items of a search page that decode as manga, in order.
pub open spec fn manga_items(items: Seq<Json>) -> Seq<Json>
    decreases items.len(),
{
    if items.len() == 0 {
        Seq::empty()
    } else {
        let prev = manga_items(items.drop_last());
        if Manga::decodes(items.last()) {
            prev.push(items.last())
        } else {
            prev
        }
    }
}

/// The items of a search page that decode as users, in order.
pub open spec fn user_items(items: Seq<Json>) -> Seq<Json>
    decreases items.len(),
{
    if items.len() == 0 {
        Seq::empty()
    } else {
        let prev = user_items(items.drop_last());
        if User::decodes(items.last()) {
            prev.push(items.last())
        } else {
            prev
        }
    }
}

impl Anime {
    /// Whether this anime is what `from_document` makes of `j`.
    pub open spec fn loaded_from(self, j: Json, client: Client, full: bool) -> bool {
        &&& self.matches_json(j)
        &&& self.client == client
        &&& self.is_full_loaded == full
        &&& self.relations == member_or_null(j, "relations"@)
        &&& self.characters == member_or_null(j, "characters"@)
        &&& self.staff is None
        &&& self.studios is None
    }

    /// Decodes an anime object, keeping its `relations` and `characters` documents.
    pub fn from_document(j: Json, client: &Client, full: bool) -> (r: Result<Anime, Error>)
        ensures
            r is Ok <==> Anime::decodes(j),
            r matches Ok(x) ==> x.loaded_from(j, *client, full),
            i64_of(field(j, "id"@)) is None ==> (r matches Err(e) && e matches Error::DecodeError(m)
                && m@ == "id"@),
            r matches Err(e) ==> e is DecodeError,
    {
        let mut a = match Anime::from_json(&j, client, full) {
            Ok(a) => a,
            Err(e) => return Err(e),
        };
        proof {
            reveal_strlit("relations");
            reveal_strlit("characters");
            assert("relations"@.len() != "characters"@.len());
        }
        let (relations, characters) = take_two(j, "relations", "characters");
        a.relations = relations;
        a.characters = characters;
        Ok(a)
    }

    /// Returns whether every field of the anime was fetched.
    pub fn is_full_loaded(&self) -> (r: bool)
        ensures
            r == self.is_full_loaded,
    {
        self.is_full_loaded
    }

    /// Returns the characters of the anime, each with its role in it.
    pub fn characters(&self) -> (r: Vec<Character>)
        ensures
            r@.len() == kept_character_edges(edges_of(self.characters)).len(),
            forall|i: int|
                0 <= i < r@.len() ==> character_from_edge(
                    #[trigger] r@[i],
                    kept_character_edges(edges_of(self.characters))[i],
                    self.client,
                ),
    {
        unwrap_characters(&self.characters, &self.client)
    }

    /// Returns the relations of the anime.
    pub fn relations(&self) -> (r: Vec<Relation>)
        ensures
            r@.len() == kept_relation_edges(edges_of(self.relations)).len(),
            forall|i: int|
                0 <= i < r@.len() ==> relation_from_edge(
                    #[trigger] r@[i],
                    kept_relation_edges(edges_of(self.relations))[i],
                    self.client,
                ),
    {
        unwrap_relations(&self.relations, &self.client)
    }

    /// The request that fetches every field of this anime, with its own client's
    /// configuration. Asking it of an anime that is fully loaded is a mistake.
    pub fn load_full_request(&self) -> (r: Request)
        requires
            !self.is_full_loaded,
        ensures
            r.body@ == payload(GET_ANIME@, Variables::Id(self.id)),
            r.timeout == self.client.timeout,
            match self.client.api_token {
                Some(t) => r.authorization matches Some(h) && h@ == bearer(t@),
                None => r.authorization is None,
            },
    {
        match self.client.request(MediaType::Anime, Action::Get, &Variables::Id(self.id)) {
            Ok(r) => r,
            Err(_) => Request { body: String::new(), authorization: None, timeout: self.client.timeout },
        }
    }

    /// Decodes the answer to `load_full_request` into a new, fully loaded anime;
    /// the anime itself is left as it is. An answer about another ID is refused.
    pub fn load_full_from_response(&self, env: Json) -> (r: Result<Anime, Error>)
        requires
            !self.is_full_loaded,
        ensures
            match api_error_of(env) {
                Some(m) => r matches Err(e) && e matches Error::ApiError(s) && s@ == m,
                None => if Anime::decodes(data_of(env, "Media"@)) && i64_of(field(data_of(env, "Media"@), "id"@)) == Some(self.id) {
                    r matches Ok(a) && a.loaded_from(data_of(env, "Media"@), self.client, true)
                } else {
                    r matches Err(e) && e is DecodeError
                },
            },
            r matches Ok(a) ==> a.id == self.id && a.is_full_loaded,
    {
        match self.client.anime_from_response(env) {
            Ok(a) => if a.id == self.id {
                Ok(a)
            } else {
                Err(Error::DecodeError("id".to_string()))
            },
            Err(e) => Err(e),
        }
    }
}

impl Manga {
    /// Whether this manga is what `from_document` makes of `j`.
    pub open spec fn loaded_from(self, j: Json, client: Client, full: bool) -> bool {
        &&& self.matches_json(j)
        &&& self.client == client
        &&& self.is_full_loaded == full
        &&& self.relations == member_or_null(j, "relations"@)
        &&& self.characters == member_or_null(j, "characters"@)
        &&& self.staff is None
        &&& self.studios is None
    }

    /// Decodes a manga object, keeping its `relations` and `characters` documents.
    pub fn from_document(j: Json, client: &Client, full: bool) -> (r: Result<Manga, Error>)
        ensures
            r is Ok <==> Manga::decodes(j),
            r matches Ok(x) ==> x.loaded_from(j, *client, full),
            i64_of(field(j, "id"@)) is None ==> (r matches Err(e) && e matches Error::DecodeError(m)
                && m@ == "id"@),
            r matches Err(e) ==> e is DecodeError,
    {
        let mut m = match Manga::from_json(&j, client, full) {
            Ok(m) => m,
            Err(e) => return Err(e),
        };
        proof {
            reveal_strlit("relations");
            reveal_strlit("characters");
            assert("relations"@.len() != "characters"@.len());
        }
        let (relations, characters) = take_two(j, "relations", "characters");
        m.relations = relations;
        m.characters = characters;
        Ok(m)
    }

    /// Returns whether every field of the manga was fetched.
    pub fn is_full_loaded(&self) -> (r: bool)
        ensures
            r == self.is_full_loaded,
    {
        self.is_full_loaded
    }

    /// Returns the characters of the manga, each with its role in it.
    pub fn characters(&self) -> (r: Result<Vec<Character>, Error>)
        ensures
            r matches Ok(v) && v@.len() == kept_character_edges(edges_of(self.characters)).len()
                && forall|i: int|
                0 <= i < v@.len() ==> character_from_edge(
                    #[trigger] v@[i],
                    kept_character_edges(edges_of(self.characters))[i],
                    self.client,
                ),
    {
        Ok(unwrap_characters(&self.characters, &self.client))
    }

    /// Returns the relations of the manga.
    pub fn relations(&self) -> (r: Result<Vec<Relation>, Error>)
        ensures
            r matches Ok(v) && v@.len() == kept_relation_edges(edges_of(self.relations)).len()
                && forall|i: int|
                0 <= i < v@.len() ==> relation_from_edge(
                    #[trigger] v@[i],
                    kept_relation_edges(edges_of(self.relations))[i],
                    self.client,
                ),
    {
        Ok(unwrap_relations(&self.relations, &self.client))
    }

    /// The request that fetches every field of this manga, with its own client's
    /// configuration. Asking it of a manga that is fully loaded is a mistake.
    pub fn load_full_request(&self) -> (r: Request)
        requires
            !self.is_full_loaded,
        ensures
            r.body@ == payload(GET_MANGA@, Variables::Id(self.id)),
            r.timeout == self.client.timeout,
            match self.client.api_token {
                Some(t) => r.authorization matches Some(h) && h@ == bearer(t@),
                None => r.authorization is None,
            },
    {
        match self.client.request(MediaType::Manga, Action::Get, &Variables::Id(self.id)) {
            Ok(r) => r,
            Err(_) => Request { body: String::new(), authorization: None, timeout: self.client.timeout },
        }
    }

    /// Decodes the answer to `load_full_request` into a new, fully loaded manga;
    /// the manga itself is left as it is. An answer about another ID is refused.
    pub fn load_full_from_response(&self, env: Json) -> (r: Result<Manga, Error>)
        requires
            !self.is_full_loaded,
        ensures
            match api_error_of(env) {
                Some(m) => r matches Err(e) && e matches Error::ApiError(s) && s@ == m,
                None => if Manga::decodes(data_of(env, "Media"@)) && i64_of(field(data_of(env, "Media"@), "id"@)) == Some(self.id) {
                    r matches Ok(a) && a.loaded_from(data_of(env, "Media"@), self.client, true)
                } else {
                    r matches Err(e) && e is DecodeError
                },
            },
            r matches Ok(a) ==> a.id == self.id && a.is_full_loaded,
    {
        match self.client.manga_from_response(env) {
            Ok(a) => if a.id == self.id {
                Ok(a)
            } else {
                Err(Error::DecodeError("id".to_string()))
            },
            Err(e) => Err(e),
        }
    }
}

impl User {
    /// Returns whether every field of the user was fetched.
    pub fn is_full_loaded(&self) -> (r: bool)
        ensures
            r == self.is_full_loaded,
    {
        self.is_full_loaded
    }

    /// The request that fetches every field of this user, with its own client's
    /// configuration. Asking it of a user that is fully loaded is a mistake.
    pub fn load_full_request(&self) -> (r: Request)
        requires
            !self.is_full_loaded,
        ensures
            r.body@ == payload(GET_USER@, Variables::Id(self.id as i64)),
            r.timeout == self.client.timeout,
            match self.client.api_token {
                Some(t) => r.authorization matches Some(h) && h@ == bearer(t@),
                None => r.authorization is None,
            },
    {
        match self.client.request(MediaType::User, Action::Get, &Variables::Id(self.id as i64)) {
            Ok(r) => r,
            Err(_) => Request { body: String::new(), authorization: None, timeout: self.client.timeout },
        }
    }

    /// Decodes the answer to `load_full_request` into a new, fully loaded user;
    /// the user itself is left as it is. An answer about another ID is refused.
    pub fn load_full_from_response(&self, env: Json) -> (r: Result<User, Error>)
        requires
            !self.is_full_loaded,
        ensures
            match api_error_of(env) {
                Some(m) => r matches Err(e) && e matches Error::ApiError(s) && s@ == m,
                None => if User::decodes(data_of(env, "User"@)) && i32_of(field(data_of(env, "User"@), "id"@)) == Some(self.id) {
                    r matches Ok(a) && a.decoded_from(data_of(env, "User"@), self.client, true)
                } else {
                    r matches Err(e) && e is DecodeError
                },
            },
            r matches Ok(a) ==> a.id == self.id && a.is_full_loaded,
    {
        match self.client.user_from_response(env) {
            Ok(a) => if a.id == self.id {
                Ok(a)
            } else {
                Err(Error::DecodeError("id".to_string()))
            },
            Err(e) => Err(e),
        }
    }
}

impl Client {
    /// The request that fetches one record by ID; an ID below 1 is refused with
    /// `InvalidId`, and an entity without a get document with `UnsupportedOperation`.
    pub fn get_request(&self, media_type: MediaType, id: i64) -> (r: Result<Request, Error>)
        ensures
            id < 1 ==> r == Err::<Request, Error>(Error::InvalidId),
            id >= 1 ==> match crate::client::document(media_type, Action::Get) {
                Some(d) => r matches Ok(req) && req.body@ == payload(d@, Variables::Id(id))
                    && req.timeout == self.timeout,
                None => r == Err::<Request, Error>(Error::UnsupportedOperation),
            },
    {
        if id < 1 {
            return Err(Error::InvalidId);
        }
        self.request(media_type, Action::Get, &Variables::Id(id))
    }

    /// Decodes the answer to a get of an anime: the reported error, else the
    /// fully loaded anime under `data.Media`.
    pub fn anime_from_response(&self, env: Json) -> (r: Result<Anime, Error>)
        ensures
            match api_error_of(env) {
                Some(m) => r matches Err(e) && e matches Error::ApiError(s) && s@ == m,
                None => if Anime::decodes(data_of(env, "Media"@)) {
                    r matches Ok(a) && a.loaded_from(data_of(env, "Media"@), *self, true)
                } else if i64_of(field(data_of(env, "Media"@), "id"@)) is None {
                    r matches Err(e) && e matches Error::DecodeError(s) && s@ == "id"@
                } else {
                    r matches Err(e) && e is DecodeError
                },
            },
    {
        if let Some(m) = api_error(&env) {
            return Err(Error::ApiError(m));
        }
        Anime::from_document(take_data(env, "Media"), self, true)
    }

    /// Decodes the answer to a get of a manga: the reported error, else the
    /// fully loaded manga under `data.Media`.
    pub fn manga_from_response(&self, env: Json) -> (r: Result<Manga, Error>)
        ensures
            match api_error_of(env) {
                Some(m) => r matches Err(e) && e matches Error::ApiError(s) && s@ == m,
                None => if Manga::decodes(data_of(env, "Media"@)) {
                    r matches Ok(a) && a.loaded_from(data_of(env, "Media"@), *self, true)
                } else if i64_of(field(data_of(env, "Media"@), "id"@)) is None {
                    r matches Err(e) && e matches Error::DecodeError(s) && s@ == "id"@
                } else {
                    r matches Err(e) && e is DecodeError
                },
            },
    {
        if let Some(m) = api_error(&env) {
            return Err(Error::ApiError(m));
        }
        Manga::from_document(take_data(env, "Media"), self, true)
    }

    /// Decodes the answer to a get of a character: the reported error, else the
    /// fully loaded character under `data.Character`.
    pub fn character_from_response(&self, env: &Json) -> (r: Result<Character, Error>)
        ensures
            match api_error_of(*env) {
                Some(m) => r matches Err(e) && e matches Error::ApiError(s) && s@ == m,
                None => if Character::decodes(data_of(*env, "Character"@)) {
                    r matches Ok(a) && a.decoded_from(data_of(*env, "Character"@), *self, true)
                } else if i64_of(field(data_of(*env, "Character"@), "id"@)) is None {
                    r matches Err(e) && e matches Error::DecodeError(s) && s@ == "id"@
                } else {
                    r matches Err(e) && e is DecodeError
                },
            },
    {
        if let Some(m) = api_error(env) {
            return Err(Error::ApiError(m));
        }
        match get(env, "data") {
            Some(d) => match get(d, "Character") {
                Some(c) => Character::from_json(c, self, true),
                None => Character::from_json(&Json::Null, self, true),
            },
            None => Character::from_json(&Json::Null, self, true),
        }
    }

    /// Decodes the answer to a get of a person: the reported error, else the
    /// fully loaded person under `data.Staff`.
    pub fn person_from_response(&self, env: &Json) -> (r: Result<Person, Error>)
        ensures
            match api_error_of(*env) {
                Some(m) => r matches Err(e) && e matches Error::ApiError(s) && s@ == m,
                None => if Person::decodes(data_of(*env, "Staff"@)) {
                    r matches Ok(a) && a.decoded_from(data_of(*env, "Staff"@), *self, true)
                } else if i64_of(field(data_of(*env, "Staff"@), "id"@)) is None {
                    r matches Err(e) && e matches Error::DecodeError(s) && s@ == "id"@
                } else {
                    r matches Err(e) && e is DecodeError
                },
            },
    {
        if let Some(m) = api_error(env) {
            return Err(Error::ApiError(m));
        }
        match get(env, "data") {
            Some(d) => match get(d, "Staff") {
                Some(c) => Person::from_json(c, self, true),
                None => Person::from_json(&Json::Null, self, true),
            },
            None => Person::from_json(&Json::Null, self, true),
        }
    }

    /// Decodes the answer to a get of a user: the reported error, else the
    /// fully loaded user under `data.User`.
    pub fn user_from_response(&self, env: Json) -> (r: Result<User, Error>)
        ensures
            match api_error_of(env) {
                Some(m) => r matches Err(e) && e matches Error::ApiError(s) && s@ == m,
                None => if User::decodes(data_of(env, "User"@)) {
                    r matches Ok(a) && a.decoded_from(data_of(env, "User"@), *self, true)
                } else if i32_of(field(data_of(env, "User"@), "id"@)) is None {
                    r matches Err(e) && e matches Error::DecodeError(s) && s@ == "id"@
                } else {
                    r matches Err(e) && e is DecodeError
                },
            },
    {
        if let Some(m) = api_error(&env) {
            return Err(Error::ApiError(m));
        }
        let data = take_data(env, "User");
        User::from_json(&data, self, true)
    }

    /// Decodes a page of anime search results under `data.Page.media`: none when
    /// that is not an array; items that do not decode are skipped, the rest are partial.
    pub fn anime_page_from_response(&self, env: &Json) -> (r: Option<Vec<Anime>>)
        ensures
            match page_items(*env, "media"@) {
                Some(items) => r matches Some(v) && v@.len() == anime_items(items).len() && forall|i: int|
                    0 <= i < v@.len() ==> (#[trigger] v@[i]).decoded_from(anime_items(items)[i], *self, false),
                None => r is None,
            },
    {
        let page = match get(env, "data") {
            Some(d) => match get(d, "Page") {
                Some(p) => p,
                None => return None,
            },
            None => return None,
        };
        match get(page, "media") {
            Some(Json::Array(items)) => {
                let mut out: Vec<Anime> = Vec::new();
                let mut i: usize = 0;
                while i < items.len()
                    invariant
                        i <= items@.len(),
                        page_items(*env, "media"@) == Some(items@),
                        out@.len() == anime_items(items@.subrange(0, i as int)).len(),
                        forall|k: int|
                            0 <= k < out@.len() ==> (#[trigger] out@[k]).decoded_from(
                                anime_items(items@.subrange(0, i as int))[k],
                                *self,
                                false,
                            ),
                    decreases items.len() - i,
                {
                    let ghost before = items@.subrange(0, i as int);
                    let ghost after = items@.subrange(0, i + 1);
                    assert(after.drop_last() =~= before);
                    assert(after.last() == items@[i as int]);
                    match Anime::from_json(&items[i], self, false) {
                        Ok(x) => out.push(x),
                        Err(_) => {},
                    }
                    i = i + 1;
                }
                assert(items@.subrange(0, items@.len() as int) =~= items@);
                Some(out)
            },
            _ => None,
        }
    }

    /// Decodes a page of manga search results under `data.Page.media`: none when
    /// that is not an array; items that do not decode are skipped, the rest are partial.
    pub fn manga_page_from_response(&self, env: &Json) -> (r: Option<Vec<Manga>>)
        ensures
            match page_items(*env, "media"@) {
                Some(items) => r matches Some(v) && v@.len() == manga_items(items).len() && forall|i: int|
                    0 <= i < v@.len() ==> (#[trigger] v@[i]).decoded_from(manga_items(items)[i], *self, false),
                None => r is None,
            },
    {
        let page = match get(env, "data") {
            Some(d) => match get(d, "Page") {
                Some(p) => p,
                None => return None,
            },
            None => return None,
        };
        match get(page, "media") {
            Some(Json::Array(items)) => {
                let mut out: Vec<Manga> = Vec::new();
                let mut i: usize = 0;
                while i < items.len()
                    invariant
                        i <= items@.len(),
                        page_items(*env, "media"@) == Some(items@),
                        out@.len() == manga_items(items@.subrange(0, i as int)).len(),
                        forall|k: int|
                            0 <= k < out@.len() ==> (#[trigger] out@[k]).decoded_from(
                                manga_items(items@.subrange(0, i as int))[k],
                                *self,
                                false,
                            ),
                    decreases items.len() - i,
                {
                    let ghost before = items@.subrange(0, i as int);
                    let ghost after = items@.subrange(0, i + 1);
                    assert(after.drop_last() =~= before);
                    assert(after.last() == items@[i as int]);
                    match Manga::from_json(&items[i], self, false) {
                        Ok(x) => out.push(x),
                        Err(_) => {},
                    }
                    i = i + 1;
                }
                assert(items@.subrange(0, items@.len() as int) =~= items@);
                Some(out)
            },
            _ => None,
        }
    }

    /// Decodes a page of user search results under `data.Page.users`: none when
    /// that is not an array; items that do not decode are skipped, the rest are partial.
    pub fn user_page_from_response(&self, env: &Json) -> (r: Option<Vec<User>>)
        ensures
            match page_items(*env, "users"@) {
                Some(items) => r matches Some(v) && v@.len() == user_items(items).len() && forall|i: int|
                    0 <= i < v@.len() ==> (#[trigger] v@[i]).decoded_from(user_items(items)[i], *self, false),
                None => r is None,
            },
    {
        let page = match get(env, "data") {
            Some(d) => match get(d, "Page") {
                Some(p) => p,
                None => return None,
            },
            None => return None,
        };
        match get(page, "users") {
            Some(Json::Array(items)) => {
                let mut out: Vec<User> = Vec::new();
                let mut i: usize = 0;
                while i < items.len()
                    invariant
                        i <= items@.len(),
                        page_items(*env, "users"@) == Some(items@),
                        out@.len() == user_items(items@.subrange(0, i as int)).len(),
                        forall|k: int|
                            0 <= k < out@.len() ==> (#[trigger] out@[k]).decoded_from(
                                user_items(items@.subrange(0, i as int))[k],
                                *self,
                                false,
                            ),
                    decreases items.len() - i,
                {
                    let ghost before = items@.subrange(0, i as int);
                    let ghost after = items@.subrange(0, i + 1);
                    assert(after.drop_last() =~= before);
                    assert(after.last() == items@[i as int]);
                    match User::from_json(&items[i], self, false) {
                        Ok(x) => out.push(x),
                        Err(_) => {},
                    }
                    i = i + 1;
                }
                assert(items@.subrange(0, items@.len() as int) =~= items@);
                Some(out)
            },
            _ => None,
        }
    }
}

} // verus!
