use tweety_rs::api::client::TweetyClient;
use reqwest::header::{HeaderMap, HeaderName, HeaderValue};
use tweety_rs::api::dispatch::{
    api_error_message, api_error_message_with_headers, build_request, classify_parsed,
    classify_parsed_with_headers, classify_response, classify_response_with_headers, HttpMethod,
    RawResponse,
};
use tweety_rs::api::error::TweetyError;
use tweety_rs::api::text::{push_decimal, same_text};

fn full_client() -> TweetyClient {
    TweetyClient::new("ck", "at", "cks", "ats")
}

fn json(text: &str) -> serde_json::Value {
    serde_json::from_str(text).unwrap()
}

fn header_map(headers: Vec<(&str, &str)>) -> HeaderMap {
    let mut h = HeaderMap::new();
    for (n, v) in headers {
        h.append(
            HeaderName::from_bytes(n.as_bytes()).unwrap(),
            HeaderValue::from_str(v).unwrap(),
        );
    }
    h
}

fn response(status: u16, headers: Vec<(&str, &str)>, body: &str) -> RawResponse {
    RawResponse {
        status,
        headers: header_map(headers),
        body: body.as_bytes().to_vec(),
    }
}

#[test]
fn new_keeps_the_secrets() {
    let c = full_client();
    assert_eq!(c.consumer_key(), "ck");
    assert_eq!(c.access_token(), "at");
    assert_eq!(c.consumer_key_secret(), "cks");
    assert_eq!(c.access_token_secret(), "ats");
    assert!(c.is_initialized());
}

#[test]
fn any_empty_secret_means_missing_credentials() {
    let clients = [
        TweetyClient::new("", "at", "cks", "ats"),
        TweetyClient::new("ck", "", "cks", "ats"),
        TweetyClient::new("ck", "at", "", "ats"),
        TweetyClient::new("ck", "at", "cks", ""),
        TweetyClient::new("", "", "", ""),
    ];
    for c in clients.iter() {
        assert!(!c.is_initialized());
        for m in [HttpMethod::Get, HttpMethod::Post, HttpMethod::Put, HttpMethod::Delete] {
            let r = c.prepare_request("https://api.example.com/2/tweets", m, None);
            assert!(matches!(r, Err(TweetyError::MissingCredentials)));
        }
    }
}

#[test]
fn missing_credentials_come_before_a_bad_url() {
    let c = TweetyClient::new("ck", "", "cks", "ats");
    let r = c.prepare_request("not a url", HttpMethod::Get, None);
    assert!(matches!(r, Err(TweetyError::MissingCredentials)));
}

#[test]
fn invalid_url_is_a_url_error() {
    let c = full_client();
    for m in [HttpMethod::Get, HttpMethod::Post, HttpMethod::Put, HttpMethod::Delete] {
        let r = c.prepare_request("not a url", m, None);
        assert!(matches!(
            r,
            Err(TweetyError::UrlParseError(url::ParseError::RelativeUrlWithoutBase))
        ));
    }
}

#[test]
fn failed_serialization_is_an_error() {
    let c = full_client();
    let e = serde_json::from_str::<serde_json::Value>("{").unwrap_err();
    let r = c.prepare_request("https://api.example.com/x", HttpMethod::Post, Some(Err(e)));
    assert!(matches!(r, Err(TweetyError::SerializationError(_))));
}

#[test]
fn url_is_normalized() {
    let c = full_client();
    let req = c
        .prepare_request("HTTPS://API.example.com", HttpMethod::Get, None)
        .unwrap();
    assert_eq!(req.url, "https://api.example.com/");
}

#[test]
fn post_carries_json_content_type_and_body() {
    let c = full_client();
    let body = serde_json::to_string(&json("{\"text\": \"hello\"}"));
    let req = c
        .prepare_request("https://api.example.com/2/tweets", HttpMethod::Post, Some(body))
        .unwrap();
    assert_eq!(req.method, HttpMethod::Post);
    assert_eq!(req.content_type.as_deref(), Some("application/json"));
    assert_eq!(req.body.as_deref(), Some("{\"text\":\"hello\"}"));
}

#[test]
fn get_with_a_body_sends_no_body() {
    let c = full_client();
    let body = serde_json::to_string(&json("{\"text\": \"hello\"}"));
    let req = c
        .prepare_request("https://api.example.com/2/tweets", HttpMethod::Get, Some(body))
        .unwrap();
    assert_eq!(req.method, HttpMethod::Get);
    assert_eq!(req.content_type, None);
    assert_eq!(req.body, None);
}

#[test]
fn put_and_delete_send_no_body() {
    let c = full_client();
    for m in [HttpMethod::Put, HttpMethod::Delete] {
        let body = serde_json::to_string(&json("{\"a\": 1}"));
        let req = c.prepare_request("https://api.example.com/x", m, Some(body)).unwrap();
        assert_eq!(req.method, m);
        assert_eq!(req.content_type, None);
        assert_eq!(req.body, None);
    }
}

#[test]
fn post_without_body_sends_empty_body() {
    let c = full_client();
    let req = c
        .prepare_request("https://api.example.com/x", HttpMethod::Post, None)
        .unwrap();
    assert_eq!(req.content_type.as_deref(), Some("application/json"));
    assert_eq!(req.body.as_deref(), Some(""));
}

#[test]
fn success_returns_parsed_body() {
    let r = classify_response(Ok(response(200, vec![], "{\"id\": 42}")));
    assert_eq!(r.unwrap(), json("{\"id\": 42}"));
}

#[test]
fn any_2xx_is_success() {
    let r = classify_response(Ok(response(204, vec![], "[]")));
    assert_eq!(r.unwrap(), json("[]"));
    let r = classify_response(Ok(response(299, vec![], "null")));
    assert_eq!(r.unwrap(), json("null"));
}

#[test]
fn success_with_non_json_body_is_parse_error() {
    let r = classify_response(Ok(response(200, vec![], "not json")));
    assert!(matches!(r, Err(TweetyError::JsonParseError(_))));
}

#[test]
fn error_status_with_non_json_body_is_parse_error() {
    let r = classify_response(Ok(response(500, vec![], "<html>")));
    assert!(matches!(r, Err(TweetyError::JsonParseError(_))));
}

#[test]
fn error_status_with_json_body_is_api_error() {
    let r = classify_response(Ok(response(403, vec![], "{\"error\": \"forbidden\"}")));
    match r {
        Err(TweetyError::ApiError(m)) => {
            assert!(m.contains("403"));
            assert!(m.contains("forbidden"));
            assert_eq!(m, "HTTP 403 Forbidden: {\"error\":\"forbidden\"}");
        }
        other => panic!("unexpected {:?}", other),
    }
}

#[test]
fn status_below_200_is_api_error() {
    let r = classify_response(Ok(response(199, vec![], "{}")));
    match r {
        Err(TweetyError::ApiError(m)) => assert_eq!(m, "HTTP 199 <unknown status code>: {}"),
        other => panic!("unexpected {:?}", other),
    }
}

#[test]
fn transport_failure_is_network_error() {
    let r = classify_response(Err("connection refused".to_string()));
    match r {
        Err(TweetyError::NetworkError(m)) => assert_eq!(m, "connection refused"),
        other => panic!("unexpected {:?}", other),
    }
    let r = classify_response_with_headers(Err("dns".to_string()));
    assert!(matches!(r, Err(TweetyError::NetworkError(m)) if m == "dns"));
}

#[test]
fn headers_variant_returns_body_and_headers() {
    let r = classify_response_with_headers(Ok(response(200, vec![("X-Rate-Limit", "15")], "{}")));
    let w = r.unwrap();
    assert_eq!(w.body, json("{}"));
    assert_eq!(w.headers.get("X-Rate-Limit").unwrap(), "15");
    assert_eq!(w.headers.get("x-rate-limit").unwrap(), "15");
    assert_eq!(w.headers.len(), 1);
}

#[test]
fn headers_variant_api_error_ends_with_headers() {
    let r = classify_response_with_headers(Ok(response(
        429,
        vec![("x-rate-limit", "15"), ("retry-after", "3")],
        "{\"error\": \"slow down\"}",
    )));
    match r {
        Err(TweetyError::ApiError(m)) => assert_eq!(
            m,
            "HTTP 429 Too Many Requests: {\"error\":\"slow down\"}:{\"x-rate-limit\": \"15\", \"retry-after\": \"3\"}"
        ),
        other => panic!("unexpected {:?}", other),
    }
}

#[test]
fn headers_variant_parse_error() {
    let r = classify_response_with_headers(Ok(response(200, vec![("a", "b")], "not json")));
    assert!(matches!(r, Err(TweetyError::JsonParseError(_))));
}

#[test]
fn decimal_text() {
    for (n, t) in [(0u16, "0"), (7, "7"), (10, "10"), (403, "403"), (65535, "65535")] {
        let mut s = String::from("x");
        push_decimal(&mut s, n);
        assert_eq!(s, format!("x{}", t));
    }
}

#[test]
fn same_text_compares_characters() {
    assert!(same_text("GET", "GET"));
    assert!(same_text("", ""));
    assert!(!same_text("GET", "get"));
    assert!(!same_text("GET", "GETS"));
}

#[test]
fn only_four_methods_are_named() {
    assert_eq!(HttpMethod::from_name("GET"), Some(HttpMethod::Get));
    assert_eq!(HttpMethod::from_name("POST"), Some(HttpMethod::Post));
    assert_eq!(HttpMethod::from_name("PUT"), Some(HttpMethod::Put));
    assert_eq!(HttpMethod::from_name("DELETE"), Some(HttpMethod::Delete));
    assert_eq!(HttpMethod::from_name("PATCH"), None);
    assert_eq!(HttpMethod::from_name("HEAD"), None);
    assert_eq!(HttpMethod::from_name("get"), None);
    assert_eq!(HttpMethod::from_name(reqwest::Method::PATCH.as_str()), None);
}

#[test]
fn url_error_carries_the_parser_error() {
    let e = url::Url::parse("not a url").unwrap_err();
    let r = build_request(Err(e), HttpMethod::Get, None);
    assert!(matches!(r, Err(TweetyError::UrlParseError(x)) if x == e));
    let r = build_request(Err(url::ParseError::EmptyHost), HttpMethod::Post, None);
    assert!(matches!(r, Err(TweetyError::UrlParseError(url::ParseError::EmptyHost))));
}

#[test]
fn build_request_plans_post() {
    let r = build_request(
        Ok("https://a.example/".to_string()),
        HttpMethod::Post,
        Some(Ok("{\"a\":1}".to_string())),
    )
    .unwrap();
    assert_eq!(r.url, "https://a.example/");
    assert_eq!(r.content_type.as_deref(), Some("application/json"));
    assert_eq!(r.body.as_deref(), Some("{\"a\":1}"));
}

#[test]
fn api_error_messages() {
    assert_eq!(api_error_message(403, "{\"error\":\"forbidden\"}"), "HTTP 403 Forbidden: {\"error\":\"forbidden\"}");
    assert_eq!(api_error_message(100, ""), "HTTP 100 Continue: ");
    assert_eq!(api_error_message(999, "1"), "HTTP 999 <unknown status code>: 1");
    assert_eq!(
        api_error_message_with_headers(500, "null", "{}"),
        "HTTP 500 Internal Server Error: null:{}"
    );
}

#[test]
fn classify_parsed_returns_the_parsed_value() {
    let v = json("{\"id\": 42}");
    let r = classify_parsed(200, Ok(v.clone()));
    assert_eq!(r.unwrap(), v);
    let r = classify_parsed(404, Ok(json("{\"error\": \"not found\"}")));
    match r {
        Err(TweetyError::ApiError(m)) => assert_eq!(m, "HTTP 404 Not Found: {\"error\":\"not found\"}"),
        other => panic!("unexpected {:?}", other),
    }
    let e = serde_json::from_str::<serde_json::Value>("nope").unwrap_err();
    assert!(matches!(classify_parsed(200, Err(e)), Err(TweetyError::JsonParseError(_))));
}

#[test]
fn classify_parsed_with_headers_keeps_both() {
    let h = header_map(vec![("x-rate-limit", "15")]);
    let w = classify_parsed_with_headers(201, h.clone(), Ok(json("[1]"))).unwrap();
    assert_eq!(w.body, json("[1]"));
    assert_eq!(w.headers, h);
    let r = classify_parsed_with_headers(403, h, Ok(json("{\"error\": \"forbidden\"}")));
    match r {
        Err(TweetyError::ApiError(m)) => assert_eq!(
            m,
            "HTTP 403 Forbidden: {\"error\":\"forbidden\"}:{\"x-rate-limit\": \"15\"}"
        ),
        other => panic!("unexpected {:?}", other),
    }
}
