//! The HTTP endpoint that shows the counters.
//!
//! `GET /` answers with a greeting and `GET /metrics` with the counters of the
//! snapshot it is given, as plain text or, for `format=json`, as a JSON
//! object. Everything else is not found.

use vstd::prelude::*;
use vstd::string::StringExecFns;

use crate::metrics::MetricsSnapshot;
use crate::proxy::AppError;
use crate::text::{chars_of, find, range_is, run_length, same_text};

verus! {

/// The method of a request.
#[derive(Debug, Clone, Copy, PartialEq, Eq, Structural)]
pub enum Method {
    Get,
    Head,
    Post,
    Put,
    Delete,
    Connect,
    Options,
    Trace,
    Patch,
    /// A method outside the standard ones.
    Other,
}

/// What the responder reads of a request: the method, the path, and the
/// query that follows the `?`, if there is one.
#[derive(Debug, PartialEq, Eq)]
pub struct HttpRequest {
    pub method: Method,
    pub path: String,
    pub query: Option<String>,
}

/// The media type of a response's body.
#[derive(Debug, Clone, Copy, PartialEq, Eq, Structural)]
pub enum ContentType {
    TextPlain,
    ApplicationJson,
}

impl ContentType {
    /// The value of the `Content-Type` header.
    pub open spec fn header_value(self) -> Seq<char> {
        match self {
            ContentType::TextPlain => "text/plain"@,
            ContentType::ApplicationJson => "application/json"@,
        }
    }

    /// The value of the `Content-Type` header.
    pub fn as_str(&self) -> (value: &'static str)
        ensures
            value@ == self.header_value(),
    {
        match self {
            ContentType::TextPlain => "text/plain",
            ContentType::ApplicationJson => "application/json",
        }
    }
}

/// A response: the status code, the media type if one is declared, and the
/// body.
#[derive(Debug, PartialEq, Eq)]
pub struct HttpResponse {
    pub status: u16,
    pub content_type: Option<ContentType>,
    pub body: String,
}

/// The model of an `HttpResponse`: its body as characters.
pub struct ResponseModel {
    pub status: u16,
    pub content_type: Option<ContentType>,
    pub body: Seq<char>,
}

impl View for HttpResponse {
    type V = ResponseModel;

    open spec fn view(&self) -> ResponseModel {
        ResponseModel { status: self.status, content_type: self.content_type, body: self.body@ }
    }
}

/// The counters as the JSON answer names them.
#[derive(Debug, Clone, Copy, PartialEq, Eq, Structural)]
pub struct MetricsResponse {
    pub active_connections: u64,
    pub total_connections: u64,
    pub bytes_upstream: u64,
    pub bytes_downstream: u64,
}

impl MetricsResponse {
    /// The members of the JSON object, in the order in which they are
    /// written.
    pub open spec fn members(self) -> Seq<(Seq<char>, u64)> {
        seq![
            ("active_connections"@, self.active_connections),
            ("total_connections"@, self.total_connections),
            ("bytes_upstream"@, self.bytes_upstream),
            ("bytes_downstream"@, self.bytes_downstream),
        ]
    }
}

/// The value of the first parameter called `name` in the query `query`, from
/// `start` on. Parameters are separated by `&`; a parameter's name ends at
/// its first `=`, and one without `=` has an empty value.
pub open spec fn query_value_from(query: Seq<char>, name: Seq<char>, start: int) -> Option<
    Seq<char>,
>
    decreases query.len() - start,
{
    if start < 0 || start >= query.len() {
        None
    } else {
        let end = start + run_length(query, '&', start, query.len() as int);
        let equals = start + run_length(query, '=', start, end);
        if query.subrange(start, equals) == name {
            Some(
                if equals < end {
                    query.subrange(equals + 1, end)
                } else {
                    Seq::empty()
                },
            )
        } else if end < query.len() {
            query_value_from(query, name, end + 1)
        } else {
            None
        }
    }
}

/// The value of the first parameter called `name` in `query`.
pub open spec fn query_value(query: Seq<char>, name: Seq<char>) -> Option<Seq<char>> {
    query_value_from(query, name, 0)
}

/// Whether the query asks for JSON: its first `format` parameter is `json`.
pub open spec fn asks_for_json(query: Option<Seq<char>>) -> bool {
    query matches Some(text) && query_value(text, "format"@) == Some("json"@)
}

/// What a request is for.
pub enum Route {
    Greeting,
    MetricsText,
    MetricsJson,
    NotFound,
}

/// Where a request with this method, path and query goes.
pub open spec fn route_of(method: Method, path: Seq<char>, query: Option<Seq<char>>) -> Route {
    if method != Method::Get {
        Route::NotFound
    } else if path == "/"@ {
        Route::Greeting
    } else if path == "/metrics"@ {
        if asks_for_json(query) {
            Route::MetricsJson
        } else {
            Route::MetricsText
        }
    } else {
        Route::NotFound
    }
}

impl HttpRequest {
    /// Where this request goes.
    pub open spec fn route(self) -> Route {
        route_of(
            self.method,
            self.path@,
            match self.query {
                Some(query) => Some(query@),
                None => None,
            },
        )
    }
}

/// The answer to `GET /`.
pub open spec fn greeting() -> ResponseModel {
    ResponseModel { status: 200, content_type: None, body: "Hello, world!"@ }
}

/// The answer to what is not served.
pub open spec fn not_found() -> ResponseModel {
    ResponseModel { status: 404, content_type: None, body: "Not found"@ }
}

/// The answer when the counters could not be written as JSON.
pub open spec fn serialization_failed() -> ResponseModel {
    ResponseModel { status: 500, content_type: None, body: "Internal server error"@ }
}

/// The counters as four lines of text.
pub open spec fn metrics_text(snapshot: MetricsSnapshot) -> ResponseModel {
    ResponseModel {
        status: 200,
        content_type: Some(ContentType::TextPlain),
        body: snapshot.plain_text(),
    }
}

/// The JSON answer with this body.
pub open spec fn metrics_json(body: Seq<char>) -> ResponseModel {
    ResponseModel { status: 200, content_type: Some(ContentType::ApplicationJson), body }
}

/// The error of `serde_json`, as an opaque value: nothing is read from it.
#[verifier::external_type_specification]
#[verifier::external_body]
pub struct ExJsonError(serde_json::Error);

/// The text that `serde_json::to_string` writes for the JSON object with the
/// members `members`, each a name and a number, in this order.
pub uninterp spec fn json_object_text(members: Seq<(Seq<char>, u64)>) -> Seq<char>;

/// Builds the JSON object with the members `members`, in this order, and
/// writes it with `serde_json::to_string`. The text, if one comes back, is
/// the one that `json_object_text` names; that one comes back is not
/// promised.
#[verifier::external_body]
fn json_object(members: &Vec<(String, u64)>) -> (text: Result<String, serde_json::Error>)
    ensures
        text matches Ok(written) ==> written@ == json_object_text(members.deep_view()),
{
    let mut object = serde_json::Map::new();
    for (name, number) in members {
        object.insert(name.clone(), serde_json::Value::from(*number));
    }
    serde_json::to_string(&serde_json::Value::Object(object))
}

/// Whether the query asks for JSON.
pub fn wants_json(query: &Option<String>) -> (yes: bool)
    ensures
        yes == asks_for_json(
            match *query {
                Some(text) => Some(text@),
                None => None,
            },
        ),
{
    let text = match query {
        Some(text) => chars_of(text.as_str()),
        None => {
            return false;
        },
    };
    let name = chars_of("format");
    let json = chars_of("json");
    let mut start: usize = 0;
    while start < text.len()
        invariant
            *query matches Some(given) && given@ == text@,
            name@ == "format"@,
            json@ == "json"@,
            query_value(text@, name@) == query_value_from(text@, name@, start as int),
        decreases text.len() - start,
    {
        let end = find(&text, '&', start, text.len());
        let equals = find(&text, '=', start, end);
        if range_is(&text, start, equals, &name) {
            if equals < end {
                return range_is(&text, equals + 1, end, &json);
            } else {
                proof {
                    reveal_strlit("json");
                    assert("json"@.len() != Seq::<char>::empty().len());
                }
                return false;
            }
        }
        if end == text.len() {
            return false;
        }
        start = end + 1;
    }
    false
}

/// The answer to `GET /metrics?format=json`, given what the serialiser
/// returned: its text as a JSON body, or a server error if it failed.
pub fn metrics_json_response(serialized: Result<String, serde_json::Error>) -> (response:
    HttpResponse)
    ensures
        match serialized {
            Ok(body) => response@ == metrics_json(body@),
            Err(_) => response@ == serialization_failed(),
        },
{
    match serialized {
        Ok(body) => HttpResponse {
            status: 200,
            content_type: Some(ContentType::ApplicationJson),
            body,
        },
        Err(_) => HttpResponse {
            status: 500,
            content_type: None,
            body: String::from_str("Internal server error"),
        },
    }
}

/// Answers one request from the counters of `metrics`.
///
/// Where the request asks for JSON, the body is the object that the JSON
/// serialiser writes for the four counters; if the serialiser fails, this one
/// request is answered with a server error.
pub fn handle_http_request(req: &HttpRequest, metrics: &MetricsSnapshot) -> (response:
    HttpResponse)
    ensures
        match req.route() {
            Route::Greeting => response@ == greeting(),
            Route::MetricsText => response@ == metrics_text(*metrics),
            Route::MetricsJson => response@ == metrics_json(
                json_object_text(
                    (MetricsResponse {
                        active_connections: metrics.active_connections,
                        total_connections: metrics.total_connections,
                        bytes_upstream: metrics.bytes_upstream,
                        bytes_downstream: metrics.bytes_downstream,
                    }).members(),
                ),
            ) || response@ == serialization_failed(),
            Route::NotFound => response@ == not_found(),
        },
{
    let is_get = match req.method {
        Method::Get => true,
        _ => false,
    };
    if is_get && same_text(req.path.as_str(), "/") {
        HttpResponse { status: 200, content_type: None, body: String::from_str("Hello, world!") }
    } else if is_get && same_text(req.path.as_str(), "/metrics") {
        if wants_json(&req.query) {
            let response = MetricsResponse {
                active_connections: metrics.active_connections,
                total_connections: metrics.total_connections,
                bytes_upstream: metrics.bytes_upstream,
                bytes_downstream: metrics.bytes_downstream,
            };
            let members = vec![
                (String::from_str("active_connections"), response.active_connections),
                (String::from_str("total_connections"), response.total_connections),
                (String::from_str("bytes_upstream"), response.bytes_upstream),
                (String::from_str("bytes_downstream"), response.bytes_downstream),
            ];
            assert(members.deep_view() =~= response.members());
            metrics_json_response(json_object(&members))
        } else {
            HttpResponse {
                status: 200,
                content_type: Some(ContentType::TextPlain),
                body: metrics.to_plain_text(),
            }
        }
    } else {
        HttpResponse { status: 404, content_type: None, body: String::from_str("Not found") }
    }
}

/// What the HTTP responder's accept loop does next.
#[derive(Debug, PartialEq, Eq)]
pub enum HttpServerAction {
    /// Nothing happened: keep waiting.
    Wait,
    /// A client is here: serve its requests in a task of its own.
    Serve,
    /// Leave the loop with this result.
    Stop(Result<(), AppError>),
}

/// One turn of the responder's accept loop: `shutdown_tripped` says whether
/// the global shutdown token is tripped, `accepted` what the listener
/// returned, if it returned: a connection, or the text of its error. The
/// loop ends without error on shutdown and with a socket error when the
/// listener fails.
pub fn http_server(shutdown_tripped: bool, accepted: Option<Result<(), String>>) -> (action:
    HttpServerAction)
    ensures
        shutdown_tripped ==> action == HttpServerAction::Stop(Ok(())),
        !shutdown_tripped ==> match accepted {
            None => action == HttpServerAction::Wait,
            Some(Ok(_)) => action == HttpServerAction::Serve,
            Some(Err(detail)) => action == HttpServerAction::Stop(Err(AppError::Socket(detail))),
        },
{
    if shutdown_tripped {
        return HttpServerAction::Stop(Ok(()));
    }
    match accepted {
        None => HttpServerAction::Wait,
        Some(Ok(_)) => HttpServerAction::Serve,
        Some(Err(detail)) => HttpServerAction::Stop(Err(AppError::Socket(detail))),
    }
}

} // verus!
