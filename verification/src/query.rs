//! The `type` parameter of a query string.
//!
//! A query string is read as `application/x-www-form-urlencoded` pairs by the
//! `form_urlencoded` crate. The value of the first pair named `type` is the
//! content type that the request asks for.

use vstd::prelude::*;

verus! {

/// The pairs that `form_urlencoded::parse` yields for the bytes of `query`,
/// in the order in which it yields them, each as (name, value).
pub uninterp spec fn urlencoded_pairs(query: Seq<char>) -> Seq<(Seq<char>, Seq<char>)>;

/// Calls `form_urlencoded::parse` on the bytes of `query` and collects what
/// its iterator yields. Nothing is proved of the decoding: the contract only
/// gives the collected pairs their name, [`urlencoded_pairs`].
#[verifier::external_body]
fn parse_pairs(query: &str) -> (pairs: Vec<(String, String)>)
    ensures
        pairs.deep_view() == urlencoded_pairs(query@),
{
    form_urlencoded::parse(query.as_bytes()).into_owned().collect()
}

/// The name of the query parameter that selects the content type.
pub open spec fn type_key() -> Seq<char> {
    "type"@
}

/// The value of the first pair of `pairs` whose name is `type`.
pub open spec fn first_type_value(pairs: Seq<(Seq<char>, Seq<char>)>) -> Option<Seq<char>>
    decreases pairs.len(),
{
    if pairs.len() == 0 {
        None
    } else if pairs[0].0 == type_key() {
        Some(pairs[0].1)
    } else {
        first_type_value(pairs.drop_first())
    }
}

/// The content type that a request with the query component `query` asks for.
pub open spec fn requested_type(query: Option<Seq<char>>) -> Option<Seq<char>> {
    match query {
        Some(q) => first_type_value(urlencoded_pairs(q)),
        None => None,
    }
}

/// Whether `i` is the position of the first pair of `pairs` named `type`.
pub open spec fn is_first_type(pairs: Seq<(Seq<char>, Seq<char>)>, i: int) -> bool {
    &&& 0 <= i < pairs.len()
    &&& pairs[i].0 == type_key()
    &&& forall|j: int| 0 <= j < i ==> pairs[j].0 != type_key()
}

/// No pair of `pairs` is named `type`.
pub open spec fn has_no_type(pairs: Seq<(Seq<char>, Seq<char>)>) -> bool {
    forall|j: int| 0 <= j < pairs.len() ==> pairs[j].0 != type_key()
}

/// The first pair named `type` decides: pairs behind it, whatever their
/// names, change nothing.
pub proof fn lemma_first_type_wins(pairs: Seq<(Seq<char>, Seq<char>)>, i: int)
    requires
        is_first_type(pairs, i),
    ensures
        first_type_value(pairs) == Some(pairs[i].1),
    decreases pairs.len(),
{
    if i > 0 {
        lemma_first_type_wins(pairs.drop_first(), i - 1);
    }
}

/// Where no pair is named `type`, no value is selected, and only there.
pub proof fn lemma_no_type_no_value(pairs: Seq<(Seq<char>, Seq<char>)>)
    ensures
        first_type_value(pairs) is None <==> has_no_type(pairs),
    decreases pairs.len(),
{
    if pairs.len() > 0 {
        let rest = pairs.drop_first();
        lemma_no_type_no_value(rest);
        if pairs[0].0 != type_key() {
            if has_no_type(rest) {
                assert forall|j: int| 0 <= j < pairs.len() implies pairs[j].0 != type_key() by {
                    if j > 0 {
                        assert(pairs[j] == rest[j - 1]);
                    }
                }
            }
        }
    }
}

/// Of two pairs named `type`, the value of the one that comes first is
/// selected.
pub proof fn lemma_repeated_type(first: Seq<char>, second: Seq<char>)
    ensures
        first_type_value(seq![(type_key(), first), (type_key(), second)]) == Some(first),
{
    lemma_first_type_wins(seq![(type_key(), first), (type_key(), second)], 0);
}

/// Scans `pairs` in order and returns the value of the first one named `type`.
pub fn select_type(pairs: &Vec<(String, String)>) -> (value: Option<String>)
    ensures
        value.deep_view() == first_type_value(pairs.deep_view()),
{
    let ghost all = pairs.deep_view();
    let key = "type".to_owned();
    let mut i: usize = 0;
    assert(all.skip(0) == all);
    while i < pairs.len()
        invariant
            i <= pairs.len(),
            all == pairs.deep_view(),
            key@ == type_key(),
            first_type_value(all) == first_type_value(all.skip(i as int)),
        decreases pairs.len() - i,
    {
        assert(all.skip(i as int).drop_first() == all.skip(i + 1));
        if pairs[i].0 == key {
            return Some(pairs[i].1.clone());
        }
        i += 1;
    }
    None
}

/// The content type that the query component `query` of a request asks for:
/// the decoded value of its first `type` parameter.
pub fn mime_override(query: Option<&str>) -> (mime: Option<String>)
    ensures
        mime.deep_view() == requested_type(
            match query {
                Some(q) => Some(q@),
                None => None,
            },
        ),
{
    match query {
        Some(q) => {
            let pairs = parse_pairs(q);
            select_type(&pairs)
        },
        None => None,
    }
}

} // verus!
