//! The request and response values that flow through the pipeline, and the
//! fixed greeting the terminal handler produces.

use vstd::prelude::*;
use vstd::string::StringExecFns;

verus! {

/// A request: method token, path string, and an opaque body. Immutable once
/// received by a layer; ownership passes to the handler being invoked.
pub struct Request {
    pub method: String,
    pub path: String,
    pub body: String,
}

/// The mathematical value of a `Request`.
pub ghost struct RequestView {
    pub method: Seq<char>,
    pub path: Seq<char>,
    pub body: Seq<char>,
}

impl View for Request {
    type V = RequestView;

    open spec fn view(&self) -> RequestView {
        RequestView { method: self.method@, path: self.path@, body: self.body@ }
    }
}

/// A response: status plus body. Constructed by the terminal handler and
/// passed back up the layer stack unchanged.
pub struct Response {
    pub status: u16,
    pub body: String,
}

/// The mathematical value of a `Response`.
pub ghost struct ResponseView {
    pub status: u16,
    pub body: Seq<char>,
}

impl View for Response {
    type V = ResponseView;

    open spec fn view(&self) -> ResponseView {
        ResponseView { status: self.status, body: self.body@ }
    }
}

/// The status the terminal handler answers with.
pub const STATUS_OK: u16 = 200;

/// The text of the fixed greeting.
pub open spec fn greeting_text() -> Seq<char> {
    "Hello, World!"@
}

/// The fixed greeting response, as a value.
pub open spec fn greeting_view() -> ResponseView {
    ResponseView { status: STATUS_OK, body: greeting_text() }
}

/// Builds the greeting response the terminal handler answers with.
pub fn greeting_response() -> (r: Response)
    ensures
        r@ == greeting_view(),
{
    Response { status: STATUS_OK, body: String::from_str("Hello, World!") }
}

} // verus!
