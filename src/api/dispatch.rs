use vstd::prelude::*;
use crate::api::client::{Credentials, TweetyClient};
use crate::api::error::TweetyError;
use crate::api::json::{json_error_text, json_parses, json_text, parse_json};
use crate::api::headers::headers_debug_text;
use crate::api::status::{canonical_reason, status_reason};
use crate::api::text::{decimal, push_decimal, same_text};
use crate::api::url_parse::{parse_url, parsed_url};

verus! {

/// The request methods that a client dispatches.
#[derive(Clone, Copy, PartialEq, Eq, Structural, Debug)]
pub enum HttpMethod {
    Get,
    Post,
    Put,
    Delete,
}

/// A request ready to be signed and sent: the method, the normalized URL,
/// and, for `POST` only, a JSON content type and the JSON text of the body.
#[derive(Debug)]
pub struct OutboundRequest {
    pub method: HttpMethod,
    pub url: String,
    pub content_type: Option<String>,
    pub body: Option<String>,
}

/// The method that the name stands for; only `GET`, `POST`, `PUT` and
/// `DELETE` are dispatched.
pub open spec fn method_named(name: Seq<char>) -> Option<HttpMethod> {
    if name == "GET"@ {
        Some(HttpMethod::Get)
    } else if name == "POST"@ {
        Some(HttpMethod::Post)
    } else if name == "PUT"@ {
        Some(HttpMethod::Put)
    } else if name == "DELETE"@ {
        Some(HttpMethod::Delete)
    } else {
        None
    }
}

impl HttpMethod {
    /// The method named `name`, or `None` for any method that is not
    /// dispatched; sending with such a method is a caller's mistake.
    pub fn from_name(name: &str) -> (r: Option<HttpMethod>)
        ensures
            r == method_named(name@),
    {
        if same_text(name, "GET") {
            Some(HttpMethod::Get)
        } else if same_text(name, "POST") {
            Some(HttpMethod::Post)
        } else if same_text(name, "PUT") {
            Some(HttpMethod::Put)
        } else if same_text(name, "DELETE") {
            Some(HttpMethod::Delete)
        } else {
            None
        }
    }
}

/// A method other than `GET`, `POST`, `PUT` and `DELETE` names no
/// [`HttpMethod`], so no request can be prepared for it.
pub proof fn lemma_unsupported_method_is_refused(name: Seq<char>)
    requires
        name != "GET"@,
        name != "POST"@,
        name != "PUT"@,
        name != "DELETE"@,
    ensures
        method_named(name) is None,
{
}

/// An [`OutboundRequest`] as text.
pub ghost struct RequestView {
    pub method: HttpMethod,
    pub url: Seq<char>,
    pub content_type: Option<Seq<char>>,
    pub body: Option<Seq<char>>,
}

/// The text of an optional string.
pub open spec fn text_of(s: Option<String>) -> Option<Seq<char>> {
    match s {
        Some(t) => Some(t@),
        None => None,
    }
}

impl View for OutboundRequest {
    type V = RequestView;

    open spec fn view(&self) -> RequestView {
        RequestView {
            method: self.method,
            url: self.url@,
            content_type: text_of(self.content_type),
            body: text_of(self.body),
        }
    }
}

/// What a received response holds: its status code (in 100..=999), its
/// headers, and its whole body.
#[derive(Debug)]
pub struct RawResponse {
    pub status: u16,
    pub headers: reqwest::header::HeaderMap,
    pub body: Vec<u8>,
}

/// A parsed success body together with the response's headers.
#[derive(Debug)]
pub struct ResponseWithHeaders {
    pub body: serde_json::Value,
    pub headers: reqwest::header::HeaderMap,
}

/// The request that goes out for `method` to the URL text `url`, where the
/// caller's body was serialized to `body` (if one was supplied): only `POST`
/// carries a content type and a body, which is empty where none was supplied.
pub open spec fn planned_request(
    method: HttpMethod,
    url: Seq<char>,
    body: Option<Seq<char>>,
) -> RequestView {
    RequestView {
        method,
        url,
        content_type: if method == HttpMethod::Post {
            Some("application/json"@)
        } else {
            None
        },
        body: if method == HttpMethod::Post {
            Some(
                match body {
                    Some(t) => t,
                    None => Seq::empty(),
                },
            )
        } else {
            None
        },
    }
}

/// The serialized body, where serializing it did not fail.
pub open spec fn serialized(body: Option<Result<String, serde_json::Error>>) -> Option<Seq<char>> {
    match body {
        Some(Ok(t)) => Some(t@),
        _ => None,
    }
}

/// A body was supplied and serializing it failed.
pub open spec fn serialization_failed(body: Option<Result<String, serde_json::Error>>) -> bool {
    body matches Some(Err(_))
}

/// The status is in the success class (2xx).
pub open spec fn is_success(status: u16) -> bool {
    200 <= status && status < 300
}

/// A status as `http::StatusCode` displays it: the code, a space, then the
/// canonical reason phrase, or `<unknown status code>` where there is none.
pub open spec fn status_line(status: u16) -> Seq<char> {
    decimal(status as nat) + " "@ + match canonical_reason(status) {
        Some(r) => r,
        None => "<unknown status code>"@,
    }
}

/// How an API error message starts: `HTTP <status line>: `.
pub open spec fn api_error_prefix(status: u16) -> Seq<char> {
    "HTTP "@ + status_line(status) + ": "@
}

/// What preparing a request yields, checked in this order: incomplete
/// credentials, then a target that is not an absolute URL, then a body whose
/// serialization failed, each give their error; otherwise the request is the
/// planned one for the normalized URL.
pub open spec fn prepared(
    creds: Credentials,
    url: Seq<char>,
    method: HttpMethod,
    body: Option<Result<String, serde_json::Error>>,
    r: Result<OutboundRequest, TweetyError>,
) -> bool {
    if !creds.complete() {
        r matches Err(TweetyError::MissingCredentials)
    } else if parsed_url(url) is None {
        r matches Err(TweetyError::UrlParseError(_))
    } else if serialization_failed(body) {
        r matches Err(TweetyError::SerializationError(_))
    } else {
        match r {
            Ok(req) => req@ == planned_request(method, parsed_url(url)->Some_0, serialized(body)),
            Err(_) => false,
        }
    }
}

/// A client built with any empty secret is not initialized, and preparing any
/// request with it fails with missing credentials, so nothing is sent.
pub proof fn lemma_empty_secret_never_dispatches(
    c: TweetyClient,
    url: Seq<char>,
    method: HttpMethod,
    body: Option<Result<String, serde_json::Error>>,
    r: Result<OutboundRequest, TweetyError>,
)
    requires
        c@.consumer_key.len() == 0 || c@.access_token.len() == 0
            || c@.consumer_key_secret.len() == 0 || c@.access_token_secret.len() == 0,
        prepared(c@, url, method, body, r),
    ensures
        !c.initialized(),
        r matches Err(TweetyError::MissingCredentials),
{
}

/// With four non-empty secrets and a target that is not an absolute URL,
/// preparing a request fails with a URL error, so nothing is sent.
pub proof fn lemma_bad_url_never_dispatches(
    c: TweetyClient,
    url: Seq<char>,
    method: HttpMethod,
    body: Option<Result<String, serde_json::Error>>,
    r: Result<OutboundRequest, TweetyError>,
)
    requires
        c.initialized(),
        parsed_url(url) is None,
        prepared(c@, url, method, body, r),
    ensures
        r matches Err(TweetyError::UrlParseError(_)),
{
}

/// A prepared `POST` carries the JSON content type and the serialized body
/// exactly; a prepared `GET`, `PUT` or `DELETE` carries neither, even where a
/// body was supplied.
pub proof fn lemma_only_post_carries_body(
    c: TweetyClient,
    url: Seq<char>,
    method: HttpMethod,
    text: String,
    r: Result<OutboundRequest, TweetyError>,
)
    requires
        c.initialized(),
        parsed_url(url) is Some,
        prepared(c@, url, method, Some(Ok(text)), r),
    ensures
        r matches Ok(req) && req@.url == parsed_url(url)->Some_0 && req@.method == method,
        method == HttpMethod::Post ==> (r matches Ok(req) && req@.content_type == Some(
            "application/json"@,
        ) && req@.body == Some(text@)),
        method != HttpMethod::Post ==> (r matches Ok(req) && req@.content_type is None
            && req@.body is None),
{
}

impl TweetyClient {
    /// Checks the credentials, then the URL, then the body's serialization,
    /// in that order, and builds the request that is to be signed and sent.
    /// `body` is the outcome of serializing the caller's body, if one was
    /// supplied. No request comes out unless all three checks pass.
    pub fn prepare_request(
        &self,
        url: &str,
        method: HttpMethod,
        body: Option<Result<String, serde_json::Error>>,
    ) -> (r: Result<OutboundRequest, TweetyError>)
        ensures
            prepared(self@, url@, method, body, r),
    {
        if !self.is_initialized() {
            return Err(TweetyError::MissingCredentials);
        }
        build_request(parse_url(url), method, body)
    }
}

/// Builds the request from the outcome of parsing the URL and of serializing
/// the body: the parser's error comes back as it is; then a failed
/// serialization is an error; otherwise the request is the planned one.
pub fn build_request(
    parsed: Result<String, url::ParseError>,
    method: HttpMethod,
    body: Option<Result<String, serde_json::Error>>,
) -> (r: Result<OutboundRequest, TweetyError>)
    ensures
        match parsed {
            Err(e) => r == Err::<OutboundRequest, TweetyError>(TweetyError::UrlParseError(e)),
            Ok(u) => if serialization_failed(body) {
                r matches Err(TweetyError::SerializationError(_))
            } else {
                match r {
                    Ok(req) => req@ == planned_request(method, u@, serialized(body)),
                    Err(_) => false,
                }
            },
        },
{
    let url = match parsed {
        Ok(t) => t,
        Err(e) => {
            return Err(TweetyError::UrlParseError(e));
        },
    };
    let json_body: String = match body {
        Some(Ok(t)) => t,
        Some(Err(e)) => {
            return Err(TweetyError::SerializationError(json_error_text(&e)));
        },
        None => String::new(),
    };
    match method {
        HttpMethod::Post => {
            let content_type = String::from_str("application/json");
            Ok(
                OutboundRequest {
                    method,
                    url,
                    content_type: Some(content_type),
                    body: Some(json_body),
                },
            )
        },
        _ => Ok(OutboundRequest { method, url, content_type: None, body: None }),
    }
}

/// The message of an API error: `HTTP <status>: <body>`.
pub open spec fn api_message(status: u16, body_text: Seq<char>) -> Seq<char> {
    api_error_prefix(status) + body_text
}

/// The message of an API error that also reports the headers:
/// `HTTP <status>: <body>:<headers>`.
pub open spec fn api_message_with_headers(
    status: u16,
    body_text: Seq<char>,
    headers_text: Seq<char>,
) -> Seq<char> {
    api_message(status, body_text) + ":"@ + headers_text
}

/// Builds `HTTP <status line>: <body_text>`.
pub fn api_error_message(status: u16, body_text: &str) -> (m: String)
    requires
        100 <= status <= 999,
    ensures
        m@ == api_message(status, body_text@),
{
    let mut m = String::from_str("HTTP ");
    push_decimal(&mut m, status);
    m.append(" ");
    match status_reason(status) {
        Some(r) => m.append(r.as_str()),
        None => m.append("<unknown status code>"),
    }
    m.append(": ");
    m.append(body_text);
    m
}

/// Builds `HTTP <status line>: <body_text>:<headers_text>`.
pub fn api_error_message_with_headers(status: u16, body_text: &str, headers_text: &str) -> (m:
    String)
    requires
        100 <= status <= 999,
    ensures
        m@ == api_message_with_headers(status, body_text@, headers_text@),
{
    let mut m = api_error_message(status, body_text);
    m.append(":");
    m.append(headers_text);
    m
}

/// The outcome for a response with `status` whose body was decoded to
/// `parsed`: a body that is not JSON is a parse error, whatever the status; a
/// JSON body with a 2xx status is returned as it is; any other JSON body is an
/// API error whose message is the status and the body's JSON text.
pub fn classify_parsed(status: u16, parsed: Result<serde_json::Value, serde_json::Error>) -> (r:
    Result<serde_json::Value, TweetyError>)
    requires
        100 <= status <= 999,
    ensures
        parsed is Err ==> r matches Err(TweetyError::JsonParseError(_)),
        parsed is Ok && is_success(status) ==> r == Ok::<serde_json::Value, TweetyError>(
            parsed->Ok_0,
        ),
        parsed is Ok && !is_success(status) ==> (r matches Err(TweetyError::ApiError(m)) && exists|
            t: Seq<char>,
        | m@ == api_message(status, t)),
{
    let value = match parsed {
        Ok(v) => v,
        Err(e) => {
            return Err(TweetyError::JsonParseError(json_error_text(&e)));
        },
    };
    if 200 <= status && status < 300 {
        Ok(value)
    } else {
        let t = json_text(&value);
        let m = api_error_message(status, t.as_str());
        Err(TweetyError::ApiError(m))
    }
}

/// As [`classify_parsed`], keeping the response's headers: a success carries
/// them beside the body, and an API error's message ends with their text.
pub fn classify_parsed_with_headers(
    status: u16,
    headers: reqwest::header::HeaderMap,
    parsed: Result<serde_json::Value, serde_json::Error>,
) -> (r: Result<ResponseWithHeaders, TweetyError>)
    requires
        100 <= status <= 999,
    ensures
        parsed is Err ==> r matches Err(TweetyError::JsonParseError(_)),
        parsed is Ok && is_success(status) ==> (r matches Ok(w) && w.body == parsed->Ok_0
            && w.headers == headers),
        parsed is Ok && !is_success(status) ==> (r matches Err(TweetyError::ApiError(m)) && exists|
            t: Seq<char>,
            u: Seq<char>,
        | m@ == api_message_with_headers(status, t, u)),
{
    let value = match parsed {
        Ok(v) => v,
        Err(e) => {
            return Err(TweetyError::JsonParseError(json_error_text(&e)));
        },
    };
    if 200 <= status && status < 300 {
        Ok(ResponseWithHeaders { body: value, headers })
    } else {
        let t = json_text(&value);
        let u = headers_debug_text(&headers);
        let m = api_error_message_with_headers(status, t.as_str(), u.as_str());
        Err(TweetyError::ApiError(m))
    }
}

/// A received response's status is a valid status code (100..=999), as
/// every status that `http::StatusCode` holds is.
pub open spec fn valid_outcome(outcome: Result<RawResponse, String>) -> bool {
    outcome matches Ok(resp) ==> 100 <= resp.status <= 999
}

/// How a response is classified, apart from the success value itself and
/// the error texts: the transport's failure is a network error carrying its
/// diagnostic; a body that is not JSON is a parse error, whatever the status;
/// a JSON body with a 2xx status is a success; any other JSON body is an API
/// error whose message starts with the status.
pub open spec fn classified<T>(outcome: Result<RawResponse, String>, r: Result<T, TweetyError>) -> bool {
    match outcome {
        Err(d) => match r {
            Err(TweetyError::NetworkError(m)) => m@ == d@,
            _ => false,
        },
        Ok(resp) => if !json_parses(resp.body@) {
            r matches Err(TweetyError::JsonParseError(_))
        } else if is_success(resp.status) {
            r is Ok
        } else {
            match r {
                Err(TweetyError::ApiError(m)) => api_error_prefix(resp.status).is_prefix_of(m@),
                _ => false,
            }
        },
    }
}

/// Turns the outcome of sending a request into the parsed JSON body or the
/// one error that the outcome calls for; see [`classify_parsed`].
pub fn classify_response(outcome: Result<RawResponse, String>) -> (r: Result<
    serde_json::Value,
    TweetyError,
>)
    requires
        valid_outcome(outcome),
    ensures
        classified(outcome, r),
{
    match outcome {
        Ok(resp) => {
            let parsed = parse_json(resp.body.as_slice());
            classify_parsed(resp.status, parsed)
        },
        Err(d) => Err(TweetyError::NetworkError(d)),
    }
}

/// As [`classify_response`], keeping the response's headers; see
/// [`classify_parsed_with_headers`].
pub fn classify_response_with_headers(outcome: Result<RawResponse, String>) -> (r: Result<
    ResponseWithHeaders,
    TweetyError,
>)
    requires
        valid_outcome(outcome),
    ensures
        classified(outcome, r),
        outcome matches Ok(resp) ==> (r matches Ok(w) ==> w.headers == resp.headers),
{
    match outcome {
        Ok(resp) => {
            let parsed = parse_json(resp.body.as_slice());
            classify_parsed_with_headers(resp.status, resp.headers, parsed)
        },
        Err(d) => Err(TweetyError::NetworkError(d)),
    }
}

} // verus!
