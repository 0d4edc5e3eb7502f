use std::time::Duration;

use rust_anilist::models::MediaType;
use rust_anilist::queries::{GET_ANIME, GET_CHARACTER, SEARCH_USER};
use rust_anilist::{Action, Client, Error, Variables};

#[test]
fn test_with_timeout() {
    let duration = Duration::from_secs(30);
    let client = Client::with_timeout(duration);

    assert_eq!(client.timeout, duration);
    assert!(client.api_token.is_none());
}

#[test]
fn test_with_token() {
    let api_token = "test_token";
    let client = Client::with_token(api_token);

    assert_eq!(client.timeout, Duration::from_secs(20));
    assert_eq!(client.api_token, Some(api_token.to_string()));
}

#[test]
fn test_timeout() {
    let initial_duration = Duration::from_secs(30);
    let new_duration = Duration::from_secs(60);
    let client = Client::with_timeout(initial_duration).timeout(new_duration);

    assert_eq!(client.timeout, new_duration);
}

#[test]
fn test_token() {
    let initial_token = "initial_token";
    let new_token = "new_token";
    let client = Client::with_token(initial_token).token(new_token);

    assert_eq!(client.api_token, Some(new_token.to_string()));
}

#[test]
fn default_client_has_no_token_and_twenty_seconds() {
    let client = Client::default();
    assert!(client.api_token.is_none());
    assert_eq!(client.timeout, Duration::from_secs(20));
}

#[test]
fn query_documents_for_supported_pairs() {
    assert_eq!(Client::get_query(MediaType::Anime, Action::Get), Ok(GET_ANIME.to_string()));
    assert_eq!(Client::get_query(MediaType::Character, Action::Get), Ok(GET_CHARACTER.to_string()));
    assert_eq!(Client::get_query(MediaType::User, Action::Search), Ok(SEARCH_USER.to_string()));
}

#[test]
fn unsupported_pairs_are_refused() {
    assert_eq!(Client::get_query(MediaType::Studio, Action::Get), Err(Error::UnsupportedOperation));
    assert_eq!(Client::get_query(MediaType::Character, Action::Search), Err(Error::UnsupportedOperation));
    assert_eq!(Client::get_query(MediaType::Person, Action::Search), Err(Error::UnsupportedOperation));
    assert_eq!(Client::get_query(MediaType::Unknown, Action::Get), Err(Error::UnsupportedOperation));
}

#[test]
fn request_body_for_an_id() {
    let client = Client::default();
    let req = client.request(MediaType::Character, Action::Get, &Variables::Id(20)).unwrap();
    let quoted = serde_json::to_string(GET_CHARACTER).unwrap();
    assert_eq!(req.body, format!("{{\"query\":{},\"variables\":{{\"id\":20}}}}", quoted));
    assert!(req.body.contains("\\n"));
    assert!(req.authorization.is_none());
    assert_eq!(req.timeout, Duration::from_secs(20));
    let parsed: serde_json::Value = serde_json::from_str(&req.body).unwrap();
    assert_eq!(parsed["variables"]["id"], 20);
    assert_eq!(parsed["query"], GET_CHARACTER);
}

#[test]
fn request_body_for_a_search_escapes_the_term() {
    let client = Client::with_token("abc");
    let vars = Variables::Search { term: "Naru\"to".to_string(), page: 2, per_page: 10 };
    let req = client.request(MediaType::Anime, Action::Search, &vars).unwrap();
    let parsed: serde_json::Value = serde_json::from_str(&req.body).unwrap();
    assert_eq!(parsed["variables"]["search"], "Naru\"to");
    assert_eq!(parsed["variables"]["page"], 2);
    assert_eq!(parsed["variables"]["per_page"], 10);
    assert_eq!(req.authorization, Some("Bearer abc".to_string()));
}

#[test]
fn request_body_for_a_name_and_negative_id() {
    let client = Client::default();
    let req = client.request(MediaType::User, Action::Get, &Variables::Name("andrielfr".to_string())).unwrap();
    assert!(req.body.ends_with(",\"variables\":{\"name\":\"andrielfr\"}}"));
    let req = client.request(MediaType::Anime, Action::Get, &Variables::Id(-7)).unwrap();
    assert!(req.body.ends_with(",\"variables\":{\"id\":-7}}"));
}

#[test]
fn unsupported_request_is_refused() {
    let client = Client::default();
    assert_eq!(
        client.request(MediaType::Studio, Action::Get, &Variables::Id(1)),
        Err(Error::UnsupportedOperation)
    );
}

#[test]
fn get_request_refuses_invalid_ids() {
    let client = Client::default();
    assert_eq!(client.get_request(MediaType::Anime, 0), Err(Error::InvalidId));
    assert_eq!(client.get_request(MediaType::Anime, -3), Err(Error::InvalidId));
    assert!(client.get_request(MediaType::Anime, 20).is_ok());
    assert_eq!(client.get_request(MediaType::Studio, 20), Err(Error::UnsupportedOperation));
}

#[test]
fn authorization_header_carries_the_token() {
    assert_eq!(Client::with_token("t0k").authorization(), Some("Bearer t0k".to_string()));
    assert_eq!(Client::default().authorization(), None);
}
