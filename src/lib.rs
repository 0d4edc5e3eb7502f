//! A typed client library for the AniList GraphQL API: query selection,
//! request payloads and the decoding of responses into typed records.
mod client;
pub mod error;
pub mod json;
pub mod laws;
pub mod models;
pub mod queries;
pub mod response;
pub mod text;

pub use client::{
    bearer, document, duration_of_secs, json_quoted, payload, variables_json, Action, Client,
    Request, Variables, DEFAULT_TIMEOUT_SECS, ENDPOINT,
};
pub use error::{Error, Result};
