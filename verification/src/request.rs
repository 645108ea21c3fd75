//! Calls to the service, described as values: what is to be sent, and where.
//! Sending them is the caller's.

use vstd::prelude::*;
use vstd::string::StringExecFns;

verus! {

/// HTTP verb of a call.
#[derive(Debug, Clone, Copy, PartialEq, Eq, Structural)]
pub enum Method {
    /// Read a resource
    Get,
    /// Create a resource
    Post,
    /// Act on a resource
    Patch,
    /// Remove a resource
    Delete,
}

/// One call to the service.
#[derive(Debug, Clone, PartialEq, Eq)]
pub struct ApiRequest {
    /// Verb
    pub method: Method,
    /// Address of the resource
    pub url: String,
    /// Header fields, name and value, in the order in which they are set
    pub headers: Vec<(String, String)>,
    /// A JSON document goes with the call
    pub has_body: bool,
}

/// Value of the `Authorization` field for `api_key`.
pub open spec fn bearer(api_key: Seq<char>) -> Seq<char> {
    "Bearer "@ + api_key
}

/// The header fields of a call: the bearer token on every call; on all but a
/// removal the wish for a JSON answer; and before it either the type of the
/// document sent along or, on a creation or an action without one, its
/// length of zero. A lookup names the JSON type though it sends nothing.
pub open spec fn headers_of(method: Method, has_body: bool, api_key: Seq<char>) -> Seq<
    (Seq<char>, Seq<char>),
> {
    let authorization = ("Authorization"@, bearer(api_key));
    let accept = ("accept"@, "application/json"@);
    let json = ("Content-Type"@, "application/json"@);
    let empty = ("Content-Length"@, "0"@);
    match method {
        Method::Delete => seq![authorization],
        Method::Get => seq![authorization, json, accept],
        Method::Patch => seq![authorization, empty, accept],
        Method::Post => if has_body {
            seq![authorization, json, accept]
        } else {
            seq![authorization, empty, accept]
        },
    }
}

/// Whether a JSON document goes with a call: only with a creation that has
/// one.
pub open spec fn sends_body(method: Method, has_body: bool) -> bool {
    method == Method::Post && has_body
}

/// The header fields of `request`, as texts.
pub open spec fn header_texts(request: ApiRequest) -> Seq<(Seq<char>, Seq<char>)> {
    Seq::new(
        request.headers@.len(),
        |i: int| (request.headers@[i].0@, request.headers@[i].1@),
    )
}

fn field(name: &str, value: &str) -> (pair: (String, String))
    ensures
        pair.0@ == name@,
        pair.1@ == value@,
{
    (name.to_owned(), value.to_owned())
}

/// Describes the call that applies `method` to the resource at `url` on
/// behalf of the holder of `api_key`. `has_body` says whether a JSON document
/// is at hand to send along; it is sent only with a creation.
pub fn describe(method: Method, url: String, has_body: bool, api_key: &str) -> (request:
    ApiRequest)
    ensures
        request.method == method,
        request.url == url,
        request.has_body == sends_body(method, has_body),
        header_texts(request) == headers_of(method, has_body, api_key@),
{
    let mut headers: Vec<(String, String)> = Vec::new();
    let token = String::from_str("Bearer ").concat(api_key);
    headers.push(("Authorization".to_owned(), token));
    match method {
        Method::Delete => {},
        Method::Get => {
            headers.push(field("Content-Type", "application/json"));
            headers.push(field("accept", "application/json"));
        },
        Method::Patch => {
            headers.push(field("Content-Length", "0"));
            headers.push(field("accept", "application/json"));
        },
        Method::Post => {
            if has_body {
                headers.push(field("Content-Type", "application/json"));
            } else {
                headers.push(field("Content-Length", "0"));
            }
            headers.push(field("accept", "application/json"));
        },
    }
    let sends = match method {
        Method::Post => has_body,
        _ => false,
    };
    let request = ApiRequest { method, url, headers, has_body: sends };
    proof {
        assert(header_texts(request) =~= headers_of(method, has_body, api_key@));
    }
    request
}

} // verus!
