//! The one route of the server: a path of exactly one segment.

use vstd::prelude::*;

verus! {

/// A path segment: at least one character, none of them a slash.
pub open spec fn is_segment(seg: Seq<char>) -> bool {
    &&& seg.len() > 0
    &&& forall|i: int| 0 <= i < seg.len() ==> seg[i] != '/'
}

/// What follows the first character of `path`, without the slash that may
/// close it.
pub open spec fn route_segment(path: Seq<char>) -> Seq<char> {
    let rest = path.skip(1);
    if rest.len() > 0 && rest.last() == '/' {
        rest.drop_last()
    } else {
        rest
    }
}

/// Whether `path` is served: a slash, one segment, and at most one slash
/// that closes it.
pub open spec fn is_routed(path: Seq<char>) -> bool {
    &&& path.len() > 0
    &&& path[0] == '/'
    &&& is_segment(route_segment(path))
}

/// How far a scan of a path has come.
enum Scan {
    /// Nothing read.
    Start,
    /// The leading slash read.
    Slash,
    /// The leading slash and a segment read.
    Segment,
    /// The leading slash, a segment and the slash that closes it read.
    Closed,
}

/// Whether the first `n` characters of `path` bring a scan to `state`.
spec fn scanned(path: Seq<char>, n: int, state: Scan) -> bool {
    match state {
        Scan::Start => n == 0,
        Scan::Slash => n == 1 && path[0] == '/',
        Scan::Segment => {
            &&& n >= 2
            &&& path[0] == '/'
            &&& forall|i: int| 1 <= i < n ==> path[i] != '/'
        },
        Scan::Closed => {
            &&& n >= 3
            &&& path[0] == '/'
            &&& path[n - 1] == '/'
            &&& forall|i: int| 1 <= i < n - 1 ==> path[i] != '/'
        },
    }
}

/// A path with a slash at `i` that neither opens nor ends it is not served.
proof fn lemma_inner_slash(path: Seq<char>, i: int)
    requires
        1 <= i < path.len() - 1,
        path[i] == '/',
    ensures
        !is_routed(path),
{
    assert(route_segment(path)[i - 1] == '/');
}

/// A path that a scan has read to its end is served where the scan stands
/// in a segment or behind its closing slash, and only there.
proof fn lemma_scan_end(path: Seq<char>, state: Scan)
    requires
        scanned(path, path.len() as int, state),
    ensures
        is_routed(path) <==> (state is Segment || state is Closed),
{
}

/// Every path made of a slash and one segment is served, whatever the
/// segment is, with or without a slash that closes it. The bare slash is not
/// served, and neither is a path that goes on behind the closing slash.
pub proof fn lemma_route_shape(seg: Seq<char>, more: Seq<char>)
    requires
        is_segment(seg),
    ensures
        is_routed(seq!['/'] + seg),
        is_routed(seq!['/'] + seg + seq!['/']),
        !is_routed(seq!['/']),
        more.len() > 0 ==> !is_routed(seq!['/'] + seg + seq!['/'] + more),
{
    if more.len() > 0 {
        lemma_inner_slash(seq!['/'] + seg + seq!['/'] + more, seg.len() as int + 1);
    }
}

/// A served path is a slash, its one segment, and at most one slash that
/// closes it.
pub proof fn lemma_routed_shape(path: Seq<char>)
    requires
        is_routed(path),
    ensures
        is_segment(route_segment(path)),
        path == seq!['/'] + route_segment(path) || path == seq!['/'] + route_segment(path)
            + seq!['/'],
{
}

/// Tells whether a request for `path` is served.
pub fn matches_route(path: &str) -> (matched: bool)
    ensures
        matched == is_routed(path@),
{
    let chars = path.chars();
    let mut state = Scan::Start;
    for c in it: chars
        invariant
            it.seq() == path@,
            scanned(path@, it.index(), state),
    {
        let ghost n = it.index();
        match state {
            Scan::Start => {
                if c != '/' {
                    return false;
                }
                state = Scan::Slash;
            },
            Scan::Slash => {
                if c == '/' {
                    proof {
                        if path@.len() > 2 {
                            lemma_inner_slash(path@, 1);
                        }
                    }
                    return false;
                }
                state = Scan::Segment;
            },
            Scan::Segment => {
                if c == '/' {
                    state = Scan::Closed;
                }
            },
            Scan::Closed => {
                proof {
                    lemma_inner_slash(path@, n - 1);
                }
                return false;
            },
        }
    }
    proof {
        lemma_scan_end(path@, state);
    }
    match state {
        Scan::Segment => true,
        Scan::Closed => true,
        _ => false,
    }
}

} // verus!
