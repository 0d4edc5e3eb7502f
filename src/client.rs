//! The `Client` struct: its configuration, the choice of query document for an
//! operation, and the request payload that is sent for it.
use vstd::prelude::*;

use core::time::Duration;

use crate::error::Error;
use crate::models::MediaType;
use crate::queries::{
    GET_ANIME, GET_CHARACTER, GET_MANGA, GET_PERSON, GET_USER, SEARCH_ANIME, SEARCH_MANGA,
    SEARCH_USER,
};
use crate::text::{decimal, int_text};

verus! {

/// The duration of a whole number of seconds, as `Duration::from_secs` makes it.
pub uninterp spec fn duration_of_secs(secs: nat) -> Duration;

/// Relies on `Duration::from_secs`: the result depends on the number of seconds alone.
pub assume_specification[ core::time::Duration::from_secs ](secs: u64) -> (r: Duration)
    ensures
        r == duration_of_secs(secs as nat),
;

/// What `serde_json::to_string` writes for a string: a quoted, escaped JSON string.
pub uninterp spec fn json_quoted(s: Seq<char>) -> Seq<char>;

/// Relies on `serde_json::to_string` on a `str`: the JSON string literal for the
/// text, which depends on the text alone. Writing a `str` cannot fail.
#[verifier::external_body]
fn quote_json(s: &str) -> (r: String)
    ensures
        r@ == json_quoted(s@),
{
    match serde_json::to_string(s) {
        Ok(t) => t,
        Err(_) => String::new(),
    }
}

/// The number of seconds a client waits for an answer unless told otherwise.
pub const DEFAULT_TIMEOUT_SECS: u64 = 20;

/// The address every request is sent to.
pub const ENDPOINT: &'static str = "https://graphql.anilist.co/";

/// The configuration used to talk to the service: an optional API token and a timeout.
#[derive(Debug, PartialEq)]
pub struct Client {
    /// The API token sent as a bearer credential, if any.
    pub api_token: Option<String>,
    /// How long to wait for an answer.
    pub timeout: Duration,
}

/// What an operation does with an entity.
#[derive(Debug, Clone, Copy, PartialEq, Eq, Hash, Structural)]
pub enum Action {
    /// Fetch one entity.
    Get,
    /// Search for entities.
    Search,
}

/// The variables of a request.
#[derive(Debug, Clone, PartialEq)]
pub enum Variables {
    /// `{"id": id}`.
    Id(i64),
    /// `{"name": name}`.
    Name(String),
    /// `{"search": term, "page": page, "per_page": per_page}`.
    Search { term: String, page: u16, per_page: u16 },
}

/// A request ready to be sent: its JSON body, its `Authorization` header, if
/// any, and how long to wait for the answer.
#[derive(Debug, PartialEq)]
pub struct Request {
    /// The JSON body `{"query": ..., "variables": ...}`.
    pub body: String,
    /// The value of the `Authorization` header, `Bearer <token>`, if a token is set.
    pub authorization: Option<String>,
    /// How long to wait for the answer.
    pub timeout: Duration,
}

/// The query document for an operation, if one exists.
pub open spec fn document(media_type: MediaType, action: Action) -> Option<&'static str> {
    match (action, media_type) {
        (Action::Get, MediaType::Anime) => Some(GET_ANIME),
        (Action::Get, MediaType::Manga) => Some(GET_MANGA),
        (Action::Get, MediaType::Character) => Some(GET_CHARACTER),
        (Action::Get, MediaType::User) => Some(GET_USER),
        (Action::Get, MediaType::Person) => Some(GET_PERSON),
        (Action::Search, MediaType::Anime) => Some(SEARCH_ANIME),
        (Action::Search, MediaType::Manga) => Some(SEARCH_MANGA),
        (Action::Search, MediaType::User) => Some(SEARCH_USER),
        _ => None,
    }
}

/// The JSON text of a request's variables.
pub open spec fn variables_json(v: Variables) -> Seq<char> {
    match v {
        Variables::Id(id) => "{\"id\":"@ + decimal(id as int) + "}"@,
        Variables::Name(name) => "{\"name\":"@ + json_quoted(name@) + "}"@,
        Variables::Search { term, page, per_page } => "{\"search\":"@ + json_quoted(term@)
            + ",\"page\":"@ + decimal(page as int) + ",\"per_page\":"@ + decimal(per_page as int)
            + "}"@,
    }
}

/// The JSON body of a request for a query document and its variables.
pub open spec fn payload(query: Seq<char>, v: Variables) -> Seq<char> {
    "{\"query\":"@ + json_quoted(query) + ",\"variables\":"@ + variables_json(v) + "}"@
}

/// The `Authorization` header for a token.
pub open spec fn bearer(token: Seq<char>) -> Seq<char> {
    "Bearer "@ + token
}

impl Default for Client {
    fn default() -> (r: Client)
        ensures
            r.api_token is None,
            r.timeout == duration_of_secs(DEFAULT_TIMEOUT_SECS as nat),
    {
        Client { api_token: None, timeout: Duration::from_secs(DEFAULT_TIMEOUT_SECS) }
    }
}

/// A clone carries the same configuration, independently.
impl Clone for Client {
    fn clone(&self) -> (r: Client)
        ensures
            r == *self,
    {
        self.duplicate()
    }
}

impl Client {
    /// Creates a client without a token that waits `duration` for each answer.
    pub fn with_timeout(duration: Duration) -> (r: Client)
        ensures
            r.api_token is None,
            r.timeout == duration,
    {
        Client { api_token: None, timeout: duration }
    }

    /// Creates a client with an API token and the default timeout of 20 seconds.
    pub fn with_token(token: &str) -> (r: Client)
        ensures
            r.api_token matches Some(t) && t@ == token@,
            r.timeout == duration_of_secs(DEFAULT_TIMEOUT_SECS as nat),
    {
        Client {
            api_token: Some(token.to_string()),
            timeout: Duration::from_secs(DEFAULT_TIMEOUT_SECS),
        }
    }

    /// Sets how long the client waits for each answer.
    pub fn timeout(self, duration: Duration) -> (r: Client)
        ensures
            r.api_token == self.api_token,
            r.timeout == duration,
    {
        Client { api_token: self.api_token, timeout: duration }
    }

    /// Sets the API token of the client.
    pub fn token(self, token: &str) -> (r: Client)
        ensures
            r.api_token matches Some(t) && t@ == token@,
            r.timeout == self.timeout,
    {
        Client { api_token: Some(token.to_string()), timeout: self.timeout }
    }

    /// A client with the same configuration.
    pub fn duplicate(&self) -> (r: Client)
        ensures
            r == *self,
    {
        let api_token = match &self.api_token {
            Some(t) => Some(t.clone()),
            None => None,
        };
        Client { api_token, timeout: self.timeout }
    }

    /// Returns the query document for an entity and an action, or
    /// `UnsupportedOperation` when none exists for the pair.
    pub fn get_query(media_type: MediaType, action: Action) -> (r: Result<String, Error>)
        ensures
            match document(media_type, action) {
                Some(d) => r matches Ok(q) && q@ == d@,
                None => r == Err::<String, Error>(Error::UnsupportedOperation),
            },
    {
        let doc = match action {
            Action::Get => match media_type {
                MediaType::Anime => GET_ANIME,
                MediaType::Manga => GET_MANGA,
                MediaType::Character => GET_CHARACTER,
                MediaType::User => GET_USER,
                MediaType::Person => GET_PERSON,
                _ => return Err(Error::UnsupportedOperation),
            },
            Action::Search => match media_type {
                MediaType::Anime => SEARCH_ANIME,
                MediaType::Manga => SEARCH_MANGA,
                MediaType::User => SEARCH_USER,
                _ => return Err(Error::UnsupportedOperation),
            },
        };
        Ok(doc.to_string())
    }

    /// The `Authorization` header this client sends, if it has a token.
    pub fn authorization(&self) -> (r: Option<String>)
        ensures
            match self.api_token {
                Some(t) => r matches Some(h) && h@ == bearer(t@),
                None => r is None,
            },
    {
        match &self.api_token {
            Some(t) => {
                let mut h = "Bearer ".to_string();
                h.append(t.as_str());
                Some(h)
            },
            None => None,
        }
    }

    /// Builds the request for an operation: the query document and the variables
    /// as a JSON body, the bearer header when a token is set, and the timeout.
    pub fn request(&self, media_type: MediaType, action: Action, variables: &Variables) -> (r: Result<
        Request,
        Error,
    >)
        ensures
            match document(media_type, action) {
                Some(d) => r matches Ok(req) && req.body@ == payload(d@, *variables) && req.timeout
                    == self.timeout && match self.api_token {
                    Some(t) => req.authorization matches Some(h) && h@ == bearer(t@),
                    None => req.authorization is None,
                },
                None => r == Err::<Request, Error>(Error::UnsupportedOperation),
            },
    {
        let query = match Client::get_query(media_type, action) {
            Ok(q) => q,
            Err(e) => return Err(e),
        };
        let mut body = "{\"query\":".to_string();
        body.append(quote_json(query.as_str()).as_str());
        body.append(",\"variables\":");
        match variables {
            Variables::Id(id) => {
                body.append("{\"id\":");
                body.append(int_text(*id).as_str());
                body.append("}");
            },
            Variables::Name(name) => {
                body.append("{\"name\":");
                body.append(quote_json(name.as_str()).as_str());
                body.append("}");
            },
            Variables::Search { term, page, per_page } => {
                body.append("{\"search\":");
                body.append(quote_json(term.as_str()).as_str());
                body.append(",\"page\":");
                body.append(int_text(*page as i64).as_str());
                body.append(",\"per_page\":");
                body.append(int_text(*per_page as i64).as_str());
                body.append("}");
            },
        }
        body.append("}");
        Ok(Request { body, authorization: self.authorization(), timeout: self.timeout })
    }
}

} // verus!
