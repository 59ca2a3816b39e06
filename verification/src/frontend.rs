//! The decisions of the HTTP frontend: where a request goes, and which
//! headers travel with a request that is forwarded.

use vstd::prelude::*;
use crate::text::{concat3, owned, str_eq};

verus! {

/// A method of an HTTP request.
#[derive(Clone, Copy, Debug, PartialEq, Eq, Structural)]
pub enum Method {
    Connect,
    Get,
    Head,
    Options,
    Post,
    Put,
    Delete,
    Patch,
    Trace,
}

/// The method with the given name, in upper case; none for any other name.
pub open spec fn method_named(name: Seq<char>) -> Option<Method> {
    if name == "CONNECT"@ {
        Some(Method::Connect)
    } else if name == "GET"@ {
        Some(Method::Get)
    } else if name == "HEAD"@ {
        Some(Method::Head)
    } else if name == "OPTIONS"@ {
        Some(Method::Options)
    } else if name == "POST"@ {
        Some(Method::Post)
    } else if name == "PUT"@ {
        Some(Method::Put)
    } else if name == "DELETE"@ {
        Some(Method::Delete)
    } else if name == "PATCH"@ {
        Some(Method::Patch)
    } else if name == "TRACE"@ {
        Some(Method::Trace)
    } else {
        None
    }
}

/// The method that a request is forwarded with, by its name.
pub fn to_reqwest_method(name: &str) -> (r: Option<Method>)
    ensures
        r == method_named(name@),
{
    if str_eq(name, "CONNECT") {
        Some(Method::Connect)
    } else if str_eq(name, "GET") {
        Some(Method::Get)
    } else if str_eq(name, "HEAD") {
        Some(Method::Head)
    } else if str_eq(name, "OPTIONS") {
        Some(Method::Options)
    } else if str_eq(name, "POST") {
        Some(Method::Post)
    } else if str_eq(name, "PUT") {
        Some(Method::Put)
    } else if str_eq(name, "DELETE") {
        Some(Method::Delete)
    } else if str_eq(name, "PATCH") {
        Some(Method::Patch)
    } else if str_eq(name, "TRACE") {
        Some(Method::Trace)
    } else {
        None
    }
}

/// Where a request goes.
#[derive(Clone, Copy, Debug, PartialEq, Eq, Structural)]
pub enum Dispatch {
    /// It is the health check.
    Health,
    /// This server resolves it.
    Local,
    /// It is forwarded to the endpoint that this server is a playground for.
    Forward,
}

pub const DEFAULT_GRAPHQL_HTTP_PATH: &'static str = "/graphql";

/// Where a request goes: `GET /healthz` is the health check; a server that
/// is a playground for another endpoint forwards every request but queries
/// for the schema and requests for its own assets; any other server resolves
/// every request itself.
pub open spec fn dispatched(
    path: Seq<char>,
    method: Option<Method>,
    is_playground: bool,
    operation_kind: Option<Seq<char>>,
    is_playground_asset: bool,
) -> Dispatch {
    if path == "/healthz"@ && method == Some(Method::Get) {
        Dispatch::Health
    } else if is_playground && operation_kind != Some("schema_query"@) && !is_playground_asset {
        Dispatch::Forward
    } else {
        Dispatch::Local
    }
}

/// Decides where a request goes. `operation_kind` is the value of the header
/// `_exo_operation_kind`, where the request has it.
pub fn resolve(
    path: &str,
    method: Option<Method>,
    is_playground: bool,
    operation_kind: Option<&str>,
    is_playground_asset: bool,
) -> (r: Dispatch)
    ensures
        r == dispatched(
            path@,
            method,
            is_playground,
            match operation_kind {
                Some(k) => Some(k@),
                None => None,
            },
            is_playground_asset,
        ),
{
    let is_get = match method {
        Some(Method::Get) => true,
        _ => false,
    };
    if str_eq(path, "/healthz") && is_get {
        return Dispatch::Health;
    }
    if is_playground {
        let schema_query = match operation_kind {
            Some(kind) => str_eq(kind, "schema_query"),
            None => false,
        };
        if schema_query || is_playground_asset {
            Dispatch::Local
        } else {
            Dispatch::Forward
        }
    } else {
        Dispatch::Local
    }
}

/// Whether a header of a request travels with the request when it is
/// forwarded; the name is in lower case.
pub fn forwards_request_header(name: &str) -> (r: bool)
    ensures
        r == (name@ != "origin"@ && name@ != "connection"@ && name@ != "host"@),
{
    !str_eq(name, "origin") && !str_eq(name, "connection") && !str_eq(name, "host")
}

/// Whether a header of the answer of the endpoint is handed on to the
/// client; the name is in lower case.
pub fn forwards_response_header(name: &str) -> (r: bool)
    ensures
        r == (name@ != "connection"@),
{
    !str_eq(name, "connection")
}

/// The headers of a list, each by its name and its value.
pub open spec fn header_views(headers: Seq<(String, Vec<u8>)>) -> Seq<(Seq<char>, Seq<u8>)> {
    Seq::new(headers.len(), |i: int| (headers[i].0@, headers[i].1@))
}

/// Whether a header travels: with the request to the endpoint where
/// `outbound` holds, with the answer to the client where it does not.
pub open spec fn travels(name: Seq<char>, outbound: bool) -> bool {
    if outbound {
        name != "origin"@ && name != "connection"@ && name != "host"@
    } else {
        name != "connection"@
    }
}

/// The headers of a list that travel, in the order of the list.
pub open spec fn forwarded(headers: Seq<(Seq<char>, Seq<u8>)>, outbound: bool) -> Seq<
    (Seq<char>, Seq<u8>),
>
    decreases headers.len(),
{
    if headers.len() == 0 {
        Seq::empty()
    } else {
        let rest = forwarded(headers.drop_last(), outbound);
        if travels(headers.last().0, outbound) {
            rest.push(headers.last())
        } else {
            rest
        }
    }
}

fn copy_bytes(bytes: &Vec<u8>) -> (r: Vec<u8>)
    ensures
        r@ == bytes@,
{
    let mut out: Vec<u8> = Vec::new();
    let mut i: usize = 0;
    while i < bytes.len()
        invariant
            i <= bytes.len(),
            out@ == bytes@.take(i as int),
        decreases bytes.len() - i,
    {
        out.push(bytes[i]);
        proof {
            assert(out@ =~= bytes@.take(i + 1));
        }
        i += 1;
    }
    proof {
        assert(bytes@.take(bytes.len() as int) =~= bytes@);
    }
    out
}

/// Picks the headers that travel, keeping their order; the names are in
/// lower case.
pub fn forwarded_headers(headers: &Vec<(String, Vec<u8>)>, outbound: bool) -> (r: Vec<
    (String, Vec<u8>),
>)
    ensures
        header_views(r@) == forwarded(header_views(headers@), outbound),
{
    let mut out: Vec<(String, Vec<u8>)> = Vec::new();
    let mut i: usize = 0;
    proof {
        assert(header_views(headers@).take(0) =~= Seq::empty());
        assert(header_views(out@) =~= Seq::empty());
    }
    while i < headers.len()
        invariant
            i <= headers.len(),
            header_views(out@) == forwarded(header_views(headers@).take(i as int), outbound),
        decreases headers.len() - i,
    {
        let name = headers[i].0.as_str();
        let keep = if outbound {
            forwards_request_header(name)
        } else {
            forwards_response_header(name)
        };
        let ghost before = header_views(out@);
        if keep {
            out.push((owned(name), copy_bytes(&headers[i].1)));
            proof {
                assert(header_views(out@) =~= before.push((headers[i as int].0@, headers[i as int].1@)));
            }
        }
        proof {
            let all = header_views(headers@);
            assert(all.take(i + 1).drop_last() =~= all.take(i as int));
            assert(all.take(i + 1).last() == (headers[i as int].0@, headers[i as int].1@));
        }
        i += 1;
    }
    proof {
        assert(header_views(headers@).take(headers.len() as int) =~= header_views(headers@));
    }
    out
}

/// What is sent to the endpoint for a request that is forwarded.
#[derive(Debug, PartialEq, Eq)]
pub struct ForwardedRequest {
    pub method: Method,
    pub query: Option<String>,
    pub body: String,
    pub headers: Vec<(String, Vec<u8>)>,
}

/// Makes the request that is sent to the endpoint: the method and the query
/// of the request, its body as text or the empty text where it has none,
/// and those of its headers that travel.
pub fn forward_request(
    method: Method,
    query: Option<String>,
    body: Option<String>,
    headers: &Vec<(String, Vec<u8>)>,
) -> (r: ForwardedRequest)
    ensures
        r.method == method,
        r.query == query,
        r.body@ == (match body {
            Some(b) => b@,
            None => Seq::<char>::empty(),
        }),
        header_views(r.headers@) == forwarded(header_views(headers@), true),
{
    let body = match body {
        Some(b) => b,
        None => {
            proof {
                reveal_strlit("");
                assert(""@ =~= Seq::<char>::empty());
            }
            "".to_owned()
        },
    };
    ForwardedRequest { method, query, body, headers: forwarded_headers(headers, true) }
}

/// The body that reports a failure of the frontend itself.
pub fn error_msg(message: &str) -> (r: String)
    ensures
        r@ == "{\"errors\": [{\"message\":\""@ + message@ + "\"}]}"@,
        r@ == failure_body(message@),
{
    concat3("{\"errors\": [{\"message\":\"", message, "\"}]}")
}

/// Whether a number is a status code of an HTTP response.
pub open spec fn is_status_code(code: u16) -> bool {
    100 <= code <= 999
}

/// The status code of a response as the frontend hands it on.
pub fn to_actix_status_code(code: u16) -> (r: Result<u16, String>)
    ensures
        match r {
            Ok(c) => is_status_code(code) && c == code,
            Err(e) => !is_status_code(code) && e@ == "Invalid status code"@,
        },
{
    if code >= 100 && code <= 999 {
        Ok(code)
    } else {
        Err("Invalid status code".to_owned())
    }
}

/// What is sent as the body of a response from this server.
#[derive(Debug, PartialEq, Eq)]
pub enum LocalBody {
    /// The body that the system gave.
    Payload,
    /// Nothing.
    Empty,
    /// A report of a failure of the frontend itself.
    Failure(String),
}

/// What the frontend answers to a request that this server resolved: the
/// status, the header to add to those of the response, and the body.
#[derive(Debug, PartialEq, Eq)]
pub struct LocalAnswer {
    pub status: u16,
    pub location: Option<String>,
    pub body: LocalBody,
}

/// The body of the response of the system, by its kind.
#[derive(Debug, PartialEq, Eq)]
pub enum ResponseBodyKind {
    Stream,
    Bytes,
    Redirect(String),
    Absent,
}

/// The view of a [`LocalAnswer`].
pub struct LocalAnswerView {
    pub status: u16,
    pub location: Option<Seq<char>>,
    pub failure: Option<Seq<char>>,
    pub has_payload: bool,
}

impl View for LocalAnswer {
    type V = LocalAnswerView;

    open spec fn view(&self) -> LocalAnswerView {
        LocalAnswerView {
            status: self.status,
            location: crate::field::text_option_view(self.location),
            failure: match self.body {
                LocalBody::Failure(m) => Some(m@),
                _ => None,
            },
            has_payload: self.body is Payload,
        }
    }
}

pub open spec fn failure_body(message: Seq<char>) -> Seq<char> {
    "{\"errors\": [{\"message\":\""@ + message + "\"}]}"@
}

/// What the frontend answers, given the response of the system: without a
/// response, or with a status that is none, an internal server error with a
/// report; otherwise the status of the response with its body, a redirect
/// as a `Location` header without a body.
pub open spec fn local_answer(response: Option<(u16, ResponseBodyKind)>) -> LocalAnswerView {
    match response {
        None => LocalAnswerView {
            status: 500,
            location: None,
            failure: Some(failure_body("Error resolving request"@)),
            has_payload: false,
        },
        Some((status, body)) => if !is_status_code(status) {
            LocalAnswerView {
                status: 500,
                location: None,
                failure: Some(failure_body("Invalid status code"@)),
                has_payload: false,
            }
        } else {
            match body {
                ResponseBodyKind::Stream => LocalAnswerView {
                    status,
                    location: None,
                    failure: None,
                    has_payload: true,
                },
                ResponseBodyKind::Bytes => LocalAnswerView {
                    status,
                    location: None,
                    failure: None,
                    has_payload: true,
                },
                ResponseBodyKind::Redirect(url) => LocalAnswerView {
                    status,
                    location: Some(url@),
                    failure: None,
                    has_payload: false,
                },
                ResponseBodyKind::Absent => LocalAnswerView {
                    status,
                    location: None,
                    failure: None,
                    has_payload: false,
                },
            }
        },
    }
}

/// Decides what the frontend answers to a request that this server resolved.
pub fn resolve_locally(response: Option<(u16, ResponseBodyKind)>) -> (r: LocalAnswer)
    ensures
        r@ == local_answer(response),
{
    match response {
        None => LocalAnswer {
            status: 500,
            location: None,
            body: LocalBody::Failure(error_msg("Error resolving request")),
        },
        Some((status, body)) => {
            match to_actix_status_code(status) {
                Err(_) => LocalAnswer {
                    status: 500,
                    location: None,
                    body: LocalBody::Failure(error_msg("Invalid status code")),
                },
                Ok(status) => match body {
                    ResponseBodyKind::Stream => LocalAnswer {
                        status,
                        location: None,
                        body: LocalBody::Payload,
                    },
                    ResponseBodyKind::Bytes => LocalAnswer {
                        status,
                        location: None,
                        body: LocalBody::Payload,
                    },
                    ResponseBodyKind::Redirect(url) => LocalAnswer {
                        status,
                        location: Some(url),
                        body: LocalBody::Empty,
                    },
                    ResponseBodyKind::Absent => LocalAnswer {
                        status,
                        location: None,
                        body: LocalBody::Empty,
                    },
                },
            }
        },
    }
}

/// The health check is answered whatever the server is a playground for.
pub proof fn lemma_health_is_never_forwarded(
    is_playground: bool,
    operation_kind: Option<Seq<char>>,
    is_playground_asset: bool,
)
    ensures
        dispatched(
            "/healthz"@,
            Some(Method::Get),
            is_playground,
            operation_kind,
            is_playground_asset,
        ) == Dispatch::Health,
{
}

/// A server that is no playground forwards nothing.
pub proof fn lemma_only_playgrounds_forward(
    path: Seq<char>,
    method: Option<Method>,
    operation_kind: Option<Seq<char>>,
    is_playground_asset: bool,
)
    ensures
        dispatched(path, method, false, operation_kind, is_playground_asset) != Dispatch::Forward,
{
}

} // verus!
