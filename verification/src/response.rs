use vstd::prelude::*;

verus! {

/// The mathematical value of an HTTP response: a status code and the
/// complete text of the body.
pub struct ResponseView {
    pub status: int,
    pub body: Seq<char>,
}

/// An HTTP response as the library hands it to the transport layer:
/// a numeric status code and the body text. The surrounding program
/// turns it into a wire-level response.
pub struct HttpResponse {
    pub status: u16,
    pub body: String,
}

impl View for HttpResponse {
    type V = ResponseView;

    open spec fn view(&self) -> ResponseView {
        ResponseView { status: self.status as int, body: self.body@ }
    }
}

} // verus!
