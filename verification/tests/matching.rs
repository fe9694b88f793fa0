use tachyon::matching::route_matches;

#[test]
fn test_exact_match() {
    assert!(route_matches("0:/users", "0:/users"));
    assert!(route_matches("1:/api/posts", "1:/api/posts"));
}

#[test]
fn test_parameter_match() {
    assert!(route_matches("0:/users/:id", "0:/users/123"));
    assert!(route_matches(
        "0:/users/:id/posts/:postId",
        "0:/users/123/posts/456"
    ));
}

#[test]
fn test_method_mismatch() {
    assert!(!route_matches("0:/users", "1:/users"));
}

#[test]
fn test_path_mismatch() {
    assert!(!route_matches("0:/users", "0:/posts"));
    assert!(!route_matches("0:/users/:id", "0:/posts/123"));
}

#[test]
fn test_length_mismatch() {
    assert!(!route_matches("0:/users/:id", "0:/users/123/extra"));
    assert!(!route_matches("0:/users/:id/posts", "0:/users/123"));
}

#[test]
fn test_empty_parameter() {
    assert!(!route_matches("0:/users/:id", "0:/users/"));
}

#[test]
fn test_param_segment_matches_any_value() {
    assert!(route_matches("2:/a/:x/c", "2:/a/b/c"));
    assert!(route_matches("2:/a/:x/c", "2:/a/zzzzzzzzzzzzzzzzzzzzzzzzzzzzzzzzzzzzzzzzzzzzzzzzzzzzzzzzzzzz/c"));
}

#[test]
fn test_key_without_colon_never_matches() {
    assert!(!route_matches("no-colon", "0:/users"));
    assert!(!route_matches("0:/users", "no-colon"));
}

#[test]
fn test_trailing_slash_is_its_own_segment() {
    assert!(route_matches("0:/users/", "0:/users/"));
    assert!(!route_matches("0:/users", "0:/users/"));
}

#[test]
fn test_only_first_colon_separates_the_method() {
    // a colon inside the path is a parameter marker, not a second separator
    assert!(route_matches("0:/x:y", "0:/x:y"));
    assert!(!route_matches("0:/x:y", "0:/xz"));
    assert!(route_matches("0:/a/:b", "0:/a/x:y"));
}

#[test]
fn test_str_helpers() {
    assert!(tachyon::matching::str_eq("abc", "abc"));
    assert!(!tachyon::matching::str_eq("abc", "abd"));
    assert!(!tachyon::matching::str_eq("abc", "ab"));
    assert!(tachyon::matching::str_starts_with("application/json; charset=utf-8", "application/json"));
    assert!(!tachyon::matching::str_starts_with("application/xml", "application/json"));
    assert!(!tachyon::matching::str_starts_with("app", "application/json"));
}
