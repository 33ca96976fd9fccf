use rust_backend::routes::{find_route, routes, Route};

#[test]
fn paths_of_the_three_routes() {
    assert_eq!(Route::Health.path(), "/api/v1/health");
    assert_eq!(Route::Properties.path(), "/api/v1/properties");
    assert_eq!(Route::Users.path(), "/api/v1/users");
}

#[test]
fn table_lists_every_route_once_in_order() {
    assert_eq!(routes(), vec![Route::Health, Route::Properties, Route::Users]);
}

#[test]
fn paths_are_absolute_and_distinct() {
    let table = routes();
    for (i, a) in table.iter().enumerate() {
        assert!(a.path().starts_with('/'));
        for b in &table[i + 1..] {
            assert_ne!(a.path(), b.path());
        }
    }
}

#[test]
fn find_route_finds_each_route_at_its_path() {
    assert_eq!(find_route("/api/v1/health"), Some(Route::Health));
    assert_eq!(find_route("/api/v1/properties"), Some(Route::Properties));
    assert_eq!(find_route("/api/v1/users"), Some(Route::Users));
    for route in routes() {
        assert_eq!(find_route(route.path()), Some(route));
    }
}

#[test]
fn find_route_finds_nothing_at_an_undefined_path() {
    assert_eq!(find_route("/api/v1/unknown"), None);
    assert_eq!(find_route(""), None);
    assert_eq!(find_route("/"), None);
    assert_eq!(find_route("/api/v1"), None);
    assert_eq!(find_route("/api/v1/"), None);
    assert_eq!(find_route("/api/v2/health"), None);
    assert_eq!(find_route("api/v1/health"), None);
}

#[test]
fn find_route_matches_the_whole_path() {
    assert_eq!(find_route("/api/v1/health/"), None);
    assert_eq!(find_route("/api/v1/healthz"), None);
    assert_eq!(find_route("/api/v1/healt"), None);
    assert_eq!(find_route("/api/v1/users/1"), None);
    assert_eq!(find_route("/api/v1/health?verbose=1"), None);
    assert_eq!(find_route(" /api/v1/health"), None);
}

#[test]
fn find_route_is_case_sensitive() {
    assert_eq!(find_route("/API/V1/HEALTH"), None);
    assert_eq!(find_route("/api/v1/Health"), None);
    assert_eq!(find_route("/Api/v1/users"), None);
}
