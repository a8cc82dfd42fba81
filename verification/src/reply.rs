//! An HTTP reply as plain values, and what can be turned into one.

use vstd::prelude::*;

verus! {

/// The status of a reply that succeeded.
pub const STATUS_OK: u16 = 200;

/// The content type of a reply whose body is JSON text.
pub const JSON_CONTENT_TYPE: &'static str = "application/json";

/// A reply as it goes to the serving layer: the status code, the value of
/// the `content-type` header, and the body.
#[derive(Debug)]
pub struct HttpResponse {
    pub status: u16,
    pub content_type: String,
    pub body: String,
}

/// What an `HttpResponse` holds, with its texts as sequences of characters.
pub struct HttpResponseView {
    pub status: u16,
    pub content_type: Seq<char>,
    pub body: Seq<char>,
}

impl View for HttpResponse {
    type V = HttpResponseView;

    open spec fn view(&self) -> HttpResponseView {
        HttpResponseView {
            status: self.status,
            content_type: self.content_type@,
            body: self.body@,
        }
    }
}

/// A value that can be sent as an HTTP reply.
pub trait Reply: Sized {
    /// The reply that this value stands for.
    spec fn response(self) -> HttpResponseView;

    /// Gives up the value for its reply.
    fn into_response(self) -> (response: HttpResponse)
        ensures
            response@ == self.response(),
    ;
}

} // verus!
