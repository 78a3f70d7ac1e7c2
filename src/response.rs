use vstd::prelude::*;
use vstd::string::StringSliceAdditionalSpecFns;

verus! {

/// Status of a response that carries a file's bytes.
pub const STATUS_OK: u16 = 200;

/// Status of the one failure response.
pub const STATUS_NOT_FOUND: u16 = 404;

/// Body of the one failure response.
pub const NOT_FOUND_TEXT: &'static str = "404 Not Found";

/// What a response is: its status and the bytes of its body.
pub struct ResponseView {
    pub status: u16,
    pub body: Seq<u8>,
}

/// An HTTP response: a status code and a body of raw bytes. No headers are
/// set by the responder.
pub struct Response {
    pub status: u16,
    pub body: Vec<u8>,
}

impl View for Response {
    type V = ResponseView;

    open spec fn view(&self) -> ResponseView {
        ResponseView { status: self.status, body: self.body@ }
    }
}

/// The bytes of the failure body.
pub open spec fn not_found_body() -> Seq<u8> {
    NOT_FOUND_TEXT.spec_bytes()
}

/// The response to a request that found no readable file.
pub open spec fn not_found_view() -> ResponseView {
    ResponseView { status: STATUS_NOT_FOUND, body: not_found_body() }
}

/// The response that serves `bytes`.
pub open spec fn found_view(bytes: Seq<u8>) -> ResponseView {
    ResponseView { status: STATUS_OK, body: bytes }
}

/// Builds the not-found response.
pub fn not_found() -> (r: Response)
    ensures
        r@ == not_found_view(),
{
    Response { status: STATUS_NOT_FOUND, body: NOT_FOUND_TEXT.as_bytes_vec() }
}

/// Builds the response that serves the bytes `content`.
pub fn found(content: Vec<u8>) -> (r: Response)
    ensures
        r@ == found_view(content@),
{
    Response { status: STATUS_OK, body: content }
}

} // verus!
