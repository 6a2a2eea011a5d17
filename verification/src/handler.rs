//! The responses of the server: the stored file, the answer to a path that
//! is not served, and the report of a fault.

use crate::message::{Request, RequestView, Response, ResponseView};
use crate::query::{mime_override, requested_type};
use crate::store::ContentStore;
use vstd::prelude::*;
use vstd::utf8::encode_utf8;

verus! {

/// The response to a served request `req` when the store holds `file`:
/// always the whole file, with the content type that the query asks for.
pub open spec fn file_response(file: Seq<u8>, req: RequestView) -> ResponseView {
    ResponseView { status: 200, content_type: requested_type(req.query), body: file }
}

/// What the body of a fault report starts with.
pub open spec fn error_prefix() -> Seq<char> {
    "Something went wrong: "@
}

/// The response that reports a fault described by `description`.
pub open spec fn error_response(description: Seq<char>) -> ResponseView {
    ResponseView {
        status: 500,
        content_type: None,
        body: encode_utf8(error_prefix() + description),
    }
}

/// The response to a request for a path that is not served.
pub open spec fn not_found_response() -> ResponseView {
    ResponseView {
        status: 404,
        content_type: Some("text/plain"@),
        body: encode_utf8("Not Found"@),
    }
}

/// The encoding of two texts put together is the two encodings put together.
pub proof fn lemma_encode_concat(front: Seq<char>, back: Seq<char>)
    ensures
        encode_utf8(front + back) == encode_utf8(front) + encode_utf8(back),
    decreases front.len(),
{
    if front.len() > 0 {
        assert((front + back).drop_first() == front.drop_first() + back);
        lemma_encode_concat(front.drop_first(), back);
    }
}

/// Whatever the fault, its report has status 500, no content type, and a
/// body that starts with the encoded prefix and goes on with the encoded
/// description.
pub proof fn lemma_error_body_prefix(description: Seq<char>)
    ensures
        error_response(description).status == 500,
        error_response(description).content_type is None,
        error_response(description).body == encode_utf8(error_prefix()) + encode_utf8(
            description,
        ),
        encode_utf8(error_prefix()).is_prefix_of(error_response(description).body),
{
    lemma_encode_concat(error_prefix(), description);
}

/// Answers a served request with the stored file. The request's method and
/// path play no part; its query selects the `content-type` header, which is
/// left out where the query has no `type` parameter.
pub fn file_handler(store: &ContentStore, req: &Request) -> (resp: Response)
    ensures
        resp@ == file_response(store@, req@),
{
    let mime = match &req.query {
        Some(q) => mime_override(Some(q.as_str())),
        None => None,
    };
    Response { status: 200, content_type: mime, body: store.bytes().clone() }
}

/// Turns the description of a fault into the response that reports it.
pub fn error_handler(description: &str) -> (resp: Response)
    ensures
        resp@ == error_response(description@),
{
    let text = "Something went wrong: ".to_owned().concat(description);
    Response { status: 500, content_type: None, body: text.as_str().as_bytes_vec() }
}

/// The answer to a request for a path that is not served.
pub fn not_found() -> (resp: Response)
    ensures
        resp@ == not_found_response(),
{
    Response {
        status: 404,
        content_type: Some("text/plain".to_owned()),
        body: "Not Found".as_bytes_vec(),
    }
}

} // verus!
