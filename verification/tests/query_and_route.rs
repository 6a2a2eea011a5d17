use mime_server::query::{mime_override, select_type};
use mime_server::route::matches_route;

fn pairs(items: &[(&str, &str)]) -> Vec<(String, String)> {
    items.iter().map(|(k, v)| (k.to_string(), v.to_string())).collect()
}

#[test]
fn first_type_wins() {
    assert_eq!(mime_override(Some("type=A&type=B")).as_deref(), Some("A"));
}

#[test]
fn first_type_wins_behind_other_pairs() {
    assert_eq!(
        mime_override(Some("a=1&type=image/png&b=2&type=text/html")).as_deref(),
        Some("image/png")
    );
}

#[test]
fn no_query_no_type() {
    assert_eq!(mime_override(None), None);
}

#[test]
fn query_without_type_key() {
    assert_eq!(mime_override(Some("foo=bar&kind=text/plain")), None);
    assert_eq!(mime_override(Some("")), None);
    assert_eq!(mime_override(Some("&&&")), None);
    assert_eq!(mime_override(Some("=type")), None);
}

#[test]
fn type_key_is_matched_exactly() {
    assert_eq!(mime_override(Some("Type=a&TYPE=b&types=c&typ=d&xtype=e")), None);
    assert_eq!(mime_override(Some("type%20=a")), None);
}

#[test]
fn percent_decoded_value() {
    assert_eq!(mime_override(Some("type=text%2Fplain")).as_deref(), Some("text/plain"));
}

#[test]
fn percent_decoded_key() {
    assert_eq!(mime_override(Some("%74ype=text/css")).as_deref(), Some("text/css"));
}

#[test]
fn plus_is_a_space() {
    assert_eq!(
        mime_override(Some("type=text/plain;+charset=utf-8")).as_deref(),
        Some("text/plain; charset=utf-8")
    );
}

#[test]
fn type_without_value_is_empty() {
    assert_eq!(mime_override(Some("type")).as_deref(), Some(""));
    assert_eq!(mime_override(Some("type=")).as_deref(), Some(""));
    assert_eq!(mime_override(Some("type&type=late")).as_deref(), Some(""));
}

#[test]
fn value_keeps_later_equal_signs() {
    assert_eq!(mime_override(Some("type=a=b")).as_deref(), Some("a=b"));
}

#[test]
fn malformed_escapes_are_tolerated() {
    assert_eq!(mime_override(Some("type=100%")).as_deref(), Some("100%"));
    assert_eq!(mime_override(Some("type=%zz")).as_deref(), Some("%zz"));
    assert_eq!(mime_override(Some("%=1&%%%&type=ok")).as_deref(), Some("ok"));
}

#[test]
fn invalid_utf8_is_replaced() {
    assert_eq!(mime_override(Some("type=%FF")).as_deref(), Some("\u{fffd}"));
}

#[test]
fn select_type_on_no_pairs() {
    assert_eq!(select_type(&Vec::new()), None);
}

#[test]
fn select_type_without_type() {
    assert_eq!(select_type(&pairs(&[("a", "1"), ("b", "2"), ("Type", "3")])), None);
}

#[test]
fn select_type_takes_the_first() {
    let found = select_type(&pairs(&[("a", "1"), ("type", "first"), ("type", "second")]));
    assert_eq!(found.as_deref(), Some("first"));
}

#[test]
fn select_type_takes_the_last_pair_too() {
    let found = select_type(&pairs(&[("a", "1"), ("b", "2"), ("type", "end")]));
    assert_eq!(found.as_deref(), Some("end"));
}

#[test]
fn one_segment_is_served() {
    assert!(matches_route("/anything"));
    assert!(matches_route("/x"));
    assert!(matches_route("/index.html"));
    assert!(matches_route("/%2F"));
    assert!(matches_route("/a b"));
    assert!(matches_route("/\u{e9}t\u{e9}"));
}

#[test]
fn closing_slash_is_accepted() {
    assert!(matches_route("/x/"));
    assert!(matches_route("/anything/"));
}

#[test]
fn root_is_not_served() {
    assert!(!matches_route("/"));
    assert!(!matches_route(""));
    assert!(!matches_route("//"));
}

#[test]
fn two_segments_are_not_served() {
    assert!(!matches_route("/a/b"));
    assert!(!matches_route("/a/b/"));
    assert!(!matches_route("/a/b/c"));
    assert!(!matches_route("/a//"));
    assert!(!matches_route("//a"));
}

#[test]
fn path_must_start_with_a_slash() {
    assert!(!matches_route("x"));
    assert!(!matches_route("x/"));
    assert!(!matches_route("*"));
}
