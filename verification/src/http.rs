//! The shape of an outgoing HTTP request. Sending it is left to the host.

use vstd::prelude::*;
use vstd::string::*;

verus! {

/// The HTTP methods the bot uses.
#[derive(Clone, Copy, Debug, PartialEq, Eq, Structural)]
pub enum Method {
    GET,
    POST,
    PUT,
    DELETE,
}

impl Method {
    /// The method's name on the wire.
    pub open spec fn name(self) -> Seq<char> {
        match self {
            Method::GET => "GET"@,
            Method::POST => "POST"@,
            Method::PUT => "PUT"@,
            Method::DELETE => "DELETE"@,
        }
    }

    /// Whether a request with this method is sent with its body: reading and
    /// deleting send none.
    pub open spec fn has_body(self) -> bool {
        self is POST || self is PUT
    }

    /// The method's name on the wire.
    pub fn as_str(&self) -> (name: &str)
        ensures
            name@ == self.name(),
    {
        match self {
            Method::GET => "GET",
            Method::POST => "POST",
            Method::PUT => "PUT",
            Method::DELETE => "DELETE",
        }
    }

    /// Whether the host is to serialise and send the request's body.
    pub fn sends_body(&self) -> (sends: bool)
        ensures
            sends == self.has_body(),
    {
        match self {
            Method::GET | Method::DELETE => false,
            Method::POST | Method::PUT => true,
        }
    }
}

/// The model of a [`Request`]: texts as sequences of characters, the body as
/// its own model.
pub struct RequestView<B> {
    pub url: Seq<char>,
    pub method: Method,
    pub headers: Seq<(Seq<char>, Seq<char>)>,
    pub body: B,
}

/// A request for the host to send. The body is a value; the host serialises
/// it as JSON where the method sends one.
#[derive(Debug, PartialEq, Eq)]
pub struct Request<T> {
    pub url: String,
    pub method: Method,
    pub headers: Vec<(String, String)>,
    pub body: T,
}

impl<T: View> View for Request<T> {
    type V = RequestView<T::V>;

    open spec fn view(&self) -> RequestView<T::V> {
        RequestView {
            url: self.url@,
            method: self.method,
            headers: self.headers.deep_view(),
            body: self.body@,
        }
    }
}

impl<B> RequestView<B> {
    /// No header is named twice.
    pub open spec fn well_formed(self) -> bool {
        forall|i: int, j: int|
            0 <= i < j < self.headers.len() ==> self.headers[i].0 != self.headers[j].0
    }
}

/// The header that announces a JSON body.
pub open spec fn json_header() -> (Seq<char>, Seq<char>) {
    ("Content-type"@, "application/json"@)
}

/// The header that carries the bearer token `token`.
pub open spec fn bearer_header(token: Seq<char>) -> (Seq<char>, Seq<char>) {
    ("Authorization"@, "Bearer "@ + token)
}

/// The headers of a request without credentials.
pub fn json_headers() -> (headers: Vec<(String, String)>)
    ensures
        headers.deep_view() == seq![json_header()],
{
    let mut headers: Vec<(String, String)> = Vec::new();
    headers.push((String::from_str("Content-type"), String::from_str("application/json")));
    assert(headers.deep_view() =~= seq![json_header()]);
    headers
}

/// The headers of a request that is authorised by the bearer token `token`.
pub fn bearer_headers(token: &str) -> (headers: Vec<(String, String)>)
    ensures
        headers.deep_view() == seq![bearer_header(token@), json_header()],
{
    let mut headers: Vec<(String, String)> = Vec::new();
    let mut credentials = String::from_str("Bearer ");
    credentials.append(token);
    headers.push((String::from_str("Authorization"), credentials));
    headers.push((String::from_str("Content-type"), String::from_str("application/json")));
    assert(headers.deep_view() =~= seq![bearer_header(token@), json_header()]);
    headers
}

/// A request whose headers are the JSON header alone, or the bearer header
/// and the JSON header, names no header twice.
pub proof fn lemma_headers_well_formed<B>(request: RequestView<B>, token: Seq<char>)
    requires
        request.headers == seq![json_header()] || request.headers == seq![
            bearer_header(token),
            json_header(),
        ],
    ensures
        request.well_formed(),
{
    reveal_strlit("Authorization");
    reveal_strlit("Content-type");
    assert("Authorization"@.len() == 13);
    assert("Content-type"@.len() == 12);
}

} // verus!
