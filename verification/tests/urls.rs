use stumble_core::error::AgentToolsError;
use stumble_core::urls::{canonicalize_url, validate_explore_request};

#[test]
fn urls_are_spelled_canonically() {
    assert_eq!(canonicalize_url("HTTPS://Example.COM/a/../b").unwrap(), "https://example.com/b");
    assert_eq!(canonicalize_url("https://example.com").unwrap(), "https://example.com/");
    assert!(matches!(canonicalize_url("not a url"), Err(AgentToolsError::BadUrl(_))));
}

#[test]
fn explore_requests_are_bounded() {
    assert!(validate_explore_request(1, 0).is_ok());
    assert!(validate_explore_request(50, 10).is_ok());
    assert!(matches!(validate_explore_request(0, 0), Err(AgentToolsError::ExploreRequest)));
    assert!(matches!(validate_explore_request(51, 0), Err(AgentToolsError::ExploreRequest)));
    assert!(matches!(validate_explore_request(10, 11), Err(AgentToolsError::ExploreRequest)));
}

#[test]
fn canonicalizing_twice_changes_nothing() {
    for raw in ["HTTPS://Example.COM/a/../b?q=1#f", "http://example.com:80/x", "https://user@host.example/%7E"] {
        let once = canonicalize_url(raw).unwrap();
        assert_eq!(canonicalize_url(&once).unwrap(), once);
    }
}
