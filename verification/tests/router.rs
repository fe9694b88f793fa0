use tachyon::tachyon;
use tachyon::Method;
use tachyon::Tachyon;
use tachyon::TachyonRouter;

#[test]
fn fresh_engine_has_no_routes() {
    let table = tachyon();
    assert!(table.routes().is_empty());
    assert!(table.resolve(Method::Get, "/").is_none());
}

#[test]
fn router_value_accessors() {
    let route = TachyonRouter::new(2, 99);
    assert_eq!(route.method(), 2);
    assert_eq!(route.handler(), 99);
}

#[test]
fn resolve_exact_route() {
    let mut table = tachyon();
    table.get(String::from("/users"), 1);
    table.post(String::from("/users"), 2);
    let hit = table.resolve(Method::Get, "/users").unwrap();
    assert_eq!(hit.handler(), 1);
    let hit = table.resolve(Method::Post, "/users").unwrap();
    assert_eq!(hit.handler(), 2);
    assert!(table.resolve(Method::Delete, "/users").is_none());
    assert!(table.resolve(Method::Get, "/nope").is_none());
}

#[test]
fn resolve_parameterized_route() {
    let mut table = Tachyon::new();
    table.get(String::from("/users/:id"), 7);
    let hit = table.resolve(Method::Get, "/users/123").unwrap();
    assert_eq!(hit.handler(), 7);
    assert_eq!(hit.method(), 0);
    assert!(table.resolve(Method::Get, "/users").is_none());
    assert!(table.resolve(Method::Get, "/users/1/extra").is_none());
    assert!(table.resolve(Method::Get, "/users/").is_none());
    assert!(table.resolve(Method::Post, "/users/123").is_none());
}

#[test]
fn exact_match_beats_parameterized() {
    let mut table = Tachyon::new();
    table.get(String::from("/users/:id"), 1);
    table.get(String::from("/users/me"), 2);
    let hit = table.resolve(Method::Get, "/users/me").unwrap();
    assert_eq!(hit.handler(), 2);
    let other = table.resolve(Method::Get, "/users/42").unwrap();
    assert_eq!(other.handler(), 1);
}

#[test]
fn reregistering_overwrites() {
    let mut table = Tachyon::new();
    table.put(String::from("/items/:id"), 10);
    table.put(String::from("/items/:id"), 20);
    let hit = table.resolve(Method::Put, "/items/5").unwrap();
    assert_eq!(hit.handler(), 20);
    assert_eq!(table.routes().len(), 1);
}

#[test]
fn listing_shows_path_and_method_name() {
    let mut table = Tachyon::new();
    table.get(String::from("/users"), 1);
    table.delete(String::from("/items/:id"), 2);
    table.patch(String::from("/p"), 3);
    let mut listing = table.routes();
    listing.sort();
    let mut expected = vec![
        String::from("/users GET"),
        String::from("/items/:id DELETE"),
        String::from("/p PATCH"),
    ];
    expected.sort();
    assert_eq!(listing, expected);
}

#[test]
fn key_building_keeps_parameter_colons() {
    let mut table = Tachyon::new();
    table.get(String::from("/a/:b/:c"), 4);
    assert!(table.resolve(Method::Get, "/a/x/y").is_some());
    assert!(table.resolve(Method::Get, "/a/x").is_none());
    assert!(table.resolve(Method::Get, "/a//y").is_none());
}
