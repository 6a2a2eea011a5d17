//! The router: it holds the content store and answers every request.

use crate::handler::{
    error_prefix, error_response, file_handler, file_response, lemma_error_body_prefix, not_found,
    not_found_response,
};
use crate::message::{Request, RequestView, Response, ResponseView};
use crate::query::{has_no_type, lemma_no_type_no_value, urlencoded_pairs};
use crate::route::{is_routed, matches_route};
use crate::store::ContentStore;
use vstd::prelude::*;
use vstd::utf8::encode_utf8;

verus! {

/// The response to `req` of a router whose store holds `file`: the file
/// where the path is served, the not-found answer everywhere else. The
/// method plays no part.
pub open spec fn answer(file: Seq<u8>, req: RequestView) -> ResponseView {
    if is_routed(req.path) {
        file_response(file, req)
    } else {
        not_found_response()
    }
}

/// Two requests for served paths get the same body, the stored file, and
/// status 200, whatever their methods, paths and queries are.
pub proof fn lemma_content_invariance(file: Seq<u8>, a: RequestView, b: RequestView)
    requires
        is_routed(a.path),
        is_routed(b.path),
    ensures
        answer(file, a).status == 200,
        answer(file, b).status == 200,
        answer(file, a).body == file,
        answer(file, b).body == answer(file, a).body,
{
}

/// The answer depends on the path and the query alone: requests that differ
/// only in their method get the same response.
pub proof fn lemma_method_ignored(file: Seq<u8>, a: RequestView, b: RequestView)
    requires
        a.path == b.path,
        a.query == b.query,
    ensures
        answer(file, a) == answer(file, b),
{
}

/// A served request without a query gets no content type, and one with a
/// query gets one exactly where a pair of the query is named `type`.
pub proof fn lemma_header_without_type(file: Seq<u8>, req: RequestView)
    requires
        is_routed(req.path),
    ensures
        req.query is None ==> answer(file, req).content_type is None,
        req.query matches Some(q) ==> (answer(file, req).content_type is None <==> has_no_type(
            urlencoded_pairs(q),
        )),
{
    if let Some(q) = req.query {
        lemma_no_type_no_value(urlencoded_pairs(q));
    }
}

/// A request to a path that is not served never reaches the file: its
/// answer is the not-found response, whatever the store holds.
pub proof fn lemma_unrouted_not_found(file: Seq<u8>, req: RequestView)
    requires
        !is_routed(req.path),
    ensures
        answer(file, req) == not_found_response(),
        answer(file, req).status == 404,
{
}

/// A fault does not reach beyond its own request: its report has status 500
/// and the fixed prefix, and a served request that follows gets the stored
/// file with status 200, as if the fault had not happened.
pub proof fn lemma_fault_isolation(file: Seq<u8>, fault: Seq<char>, next: RequestView)
    requires
        is_routed(next.path),
    ensures
        error_response(fault).status == 500,
        encode_utf8(error_prefix()).is_prefix_of(error_response(fault).body),
        answer(file, next).status == 200,
        answer(file, next).body == file,
{
    lemma_error_body_prefix(fault);
}

/// A content store together with the rule that decides which requests it
/// answers. A router keeps nothing of the requests it has seen.
#[derive(Debug)]
pub struct Router {
    store: ContentStore,
}

impl View for Router {
    type V = Seq<u8>;

    closed spec fn view(&self) -> Seq<u8> {
        self.store@
    }
}

/// A router that serves `file`.
pub fn router(file: Vec<u8>) -> (r: Router)
    ensures
        r@ == file@,
{
    Router { store: ContentStore::new(file) }
}

impl Router {
    /// The store that the router serves from.
    pub fn store(&self) -> (store: &ContentStore)
        ensures
            store@ == self@,
    {
        &self.store
    }

    /// Answers one request.
    pub fn route(&self, req: &Request) -> (resp: Response)
        ensures
            resp@ == answer(self@, req@),
    {
        if matches_route(req.path.as_str()) {
            file_handler(&self.store, req)
        } else {
            not_found()
        }
    }
}

} // verus!
