//! Requests and responses as plain values, with their mathematical views.

use vstd::prelude::*;

verus! {

/// What the server reads of an incoming request.
#[derive(Debug)]
pub struct Request {
    /// The request method, as sent.
    pub method: String,
    /// The path component of the request target.
    pub path: String,
    /// The query component of the request target, without the `?`, if there is one.
    pub query: Option<String>,
}

/// The view of a [`Request`].
pub struct RequestView {
    pub method: Seq<char>,
    pub path: Seq<char>,
    pub query: Option<Seq<char>>,
}

impl View for Request {
    type V = RequestView;

    open spec fn view(&self) -> RequestView {
        RequestView {
            method: self.method@,
            path: self.path@,
            query: match self.query {
                Some(q) => Some(q@),
                None => None,
            },
        }
    }
}

/// What the server answers.
#[derive(Debug)]
pub struct Response {
    /// The status code.
    pub status: u16,
    /// The value of the `content-type` header; `None` leaves the header out.
    pub content_type: Option<String>,
    /// The payload.
    pub body: Vec<u8>,
}

/// The view of a [`Response`].
pub struct ResponseView {
    pub status: u16,
    pub content_type: Option<Seq<char>>,
    pub body: Seq<u8>,
}

impl View for Response {
    type V = ResponseView;

    open spec fn view(&self) -> ResponseView {
        ResponseView {
            status: self.status,
            content_type: match self.content_type {
                Some(t) => Some(t@),
                None => None,
            },
            body: self.body@,
        }
    }
}

} // verus!
