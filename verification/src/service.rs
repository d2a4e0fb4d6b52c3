//! The two endpoints of the greeting service, modelled as pure functions
//! from a request to a response.

use vstd::prelude::*;
use vstd::string::StringExecFns;

use crate::json::json_quoted;
use crate::json::json_string_field;
use crate::json::quote_string;
use crate::json::string_field;

verus! {

/// The HTTP methods the service routes on.
#[derive(Clone, Copy, PartialEq, Eq, Structural)]
pub enum Method {
    Get,
    Post,
}

/// A request, reduced to what the service reads of it: the method, the
/// path, and the raw body bytes.
pub struct Request {
    pub method: Method,
    pub path: String,
    pub body: Vec<u8>,
}

/// A response: the status code and the body text.
pub struct Response {
    pub status: u16,
    pub body: String,
}

/// The greeting composed for `name`: `Hello <name>!`.
pub open spec fn greeting_chars(name: Seq<char>) -> Seq<char> {
    "Hello "@ + name + "!"@
}

/// Builds the greeting for `name`.
pub fn greet_message(name: &str) -> (r: String)
    ensures
        r@ == greeting_chars(name@),
{
    let mut message = String::from_str("Hello ");
    message.append(name);
    message.append("!");
    message
}

/// The response to `GET /`: the fixed plain-text greeting.
pub fn index_response() -> (r: Response)
    ensures
        r.status == 200,
        r.body@ == "Hello world!"@,
{
    Response { status: 200, body: String::from_str("Hello world!") }
}

/// The body of a successful `POST /manual` response for `name`:
/// a JSON object `{"message":<q>}` where `<q>` is the JSON encoding of the
/// greeting for `name`.
pub open spec fn manual_ok_body(name: Seq<char>) -> Seq<char> {
    "{\"message\":"@ + json_quoted(greeting_chars(name)) + "}"@
}

/// The status and body answering a `POST /manual` whose raw body is `body`:
/// `200` with the JSON greeting where `body` is a JSON object with a
/// string-valued `name` field, and `400` with an empty body otherwise.
pub open spec fn spec_manual_response(body: Seq<u8>) -> (int, Seq<char>) {
    match json_string_field(body, "name"@) {
        Some(name) => (200int, manual_ok_body(name)),
        None => (400int, Seq::<char>::empty()),
    }
}

/// Builds the successful `POST /manual` response for `name`.
pub fn manual_response(name: &str) -> (r: Response)
    ensures
        r.status == 200,
        r.body@ == manual_ok_body(name@),
{
    let message = greet_message(name);
    let quoted = quote_string(message.as_str());
    let mut body = String::from_str("{\"message\":");
    body.append(quoted.as_str());
    body.append("}");
    Response { status: 200, body }
}

/// Answers a `POST /manual` whose raw body is `body`: the request is
/// rejected exactly where its body does not decode as a JSON object with a
/// string-valued `name` field.
pub fn handle_manual(body: &[u8]) -> (r: Response)
    ensures
        (r.status as int, r.body@) == spec_manual_response(body@),
{
    match string_field(body, "name") {
        Some(name) => manual_response(name.as_str()),
        None => Response { status: 400, body: String::new() },
    }
}

/// The status and body the service answers a request with: the fixed
/// greeting for `GET /`, the JSON greeting or a rejection for
/// `POST /manual`, and `404` with an empty body for every other
/// method-and-path pair.
pub open spec fn spec_response(m: Method, path: Seq<char>, body: Seq<u8>) -> (int, Seq<char>) {
    if m == Method::Get && path == "/"@ {
        (200int, "Hello world!"@)
    } else if m == Method::Post && path == "/manual"@ {
        spec_manual_response(body)
    } else {
        (404int, Seq::<char>::empty())
    }
}

/// Routes a request to its endpoint and returns the response, exactly as
/// `spec_response` describes it.
pub fn handle_request(req: &Request) -> (r: Response)
    ensures
        (r.status as int, r.body@) == spec_response(req.method, req.path@, req.body@),
{
    match req.method {
        Method::Get => {
            let root = String::from_str("/");
            if req.path == root {
                index_response()
            } else {
                Response { status: 404, body: String::new() }
            }
        },
        Method::Post => {
            let manual_path = String::from_str("/manual");
            if req.path == manual_path {
                handle_manual(req.body.as_slice())
            } else {
                Response { status: 404, body: String::new() }
            }
        },
    }
}

/// Every `GET` request to the root path is answered with status `200` and
/// the body `Hello world!`, whatever its body holds.
pub proof fn lemma_index_ok(path: Seq<char>, body: Seq<u8>)
    requires
        path == "/"@,
    ensures
        spec_response(Method::Get, path, body) == (200int, "Hello world!"@),
{
}

/// Every `POST` request to `/manual` whose body is a JSON object with a
/// string-valued `name` field is answered with status `200` and a body
/// holding the JSON greeting for that name.
pub proof fn lemma_manual_ok(path: Seq<char>, body: Seq<u8>, name: Seq<char>)
    requires
        path == "/manual"@,
        json_string_field(body, "name"@) == Some(name),
    ensures
        spec_response(Method::Post, path, body) == (200int, manual_ok_body(name)),
{
}

/// Every `POST` request to `/manual` whose body does not decode as a JSON
/// object with a string-valued `name` field (the field missing, of another
/// type, or the body not well-formed JSON) is answered with status `400`.
pub proof fn lemma_manual_rejected(path: Seq<char>, body: Seq<u8>)
    requires
        path == "/manual"@,
        json_string_field(body, "name"@) is None,
    ensures
        spec_response(Method::Post, path, body).0 == 400,
{
}

/// Repeated identical requests produce identical responses: the answer is a
/// function of the request alone, and no state accumulates between requests.
pub proof fn lemma_idempotent(
    m1: Method,
    path1: Seq<char>,
    body1: Seq<u8>,
    m2: Method,
    path2: Seq<char>,
    body2: Seq<u8>,
)
    requires
        m1 == m2,
        path1 == path2,
        body1 == body2,
    ensures
        spec_response(m1, path1, body1) == spec_response(m2, path2, body2),
{
}

} // verus!
