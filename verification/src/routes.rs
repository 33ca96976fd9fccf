//! The route table: which paths the service answers.
//!
//! Paths are matched whole and case-sensitively. The table is small enough
//! to be an enum; what a router needs of it (every path begins with a
//! slash, no two routes share a path) is proved here.

use vstd::prelude::*;

verus! {

/// An endpoint of the service.
#[derive(Clone, Copy, Debug, PartialEq, Eq, Structural)]
pub enum Route {
    Health,
    Properties,
    Users,
}

impl Route {
    /// The path at which the route is served.
    pub open spec fn spec_path(self) -> Seq<char> {
        match self {
            Route::Health => "/api/v1/health"@,
            Route::Properties => "/api/v1/properties"@,
            Route::Users => "/api/v1/users"@,
        }
    }

    /// The path at which the route is served.
    pub fn path(&self) -> (path: &'static str)
        ensures
            path@ == self.spec_path(),
    {
        match self {
            Route::Health => "/api/v1/health",
            Route::Properties => "/api/v1/properties",
            Route::Users => "/api/v1/users",
        }
    }
}

/// Every route, in the order in which the service registers them.
pub open spec fn all_routes() -> Seq<Route> {
    seq![Route::Health, Route::Properties, Route::Users]
}

/// Every route, in the order in which the service registers them.
pub fn routes() -> (table: Vec<Route>)
    ensures
        table@ == all_routes(),
{
    let mut table: Vec<Route> = Vec::new();
    table.push(Route::Health);
    table.push(Route::Properties);
    table.push(Route::Users);
    assert(table@ =~= all_routes());
    table
}

/// The route served at `path`, if there is one.
pub open spec fn spec_find_route(path: Seq<char>) -> Option<Route> {
    if path == Route::Health.spec_path() {
        Some(Route::Health)
    } else if path == Route::Properties.spec_path() {
        Some(Route::Properties)
    } else if path == Route::Users.spec_path() {
        Some(Route::Users)
    } else {
        None
    }
}

/// Looks `path` up in the route table.
pub fn find_route(path: &str) -> (found: Option<Route>)
    ensures
        found == spec_find_route(path@),
{
    let wanted = path.to_owned();
    if wanted == Route::Health.path().to_owned() {
        Some(Route::Health)
    } else if wanted == Route::Properties.path().to_owned() {
        Some(Route::Properties)
    } else if wanted == Route::Users.path().to_owned() {
        Some(Route::Users)
    } else {
        None
    }
}

/// No two routes are served at the same path.
pub proof fn lemma_paths_distinct(a: Route, b: Route)
    requires
        a != b,
    ensures
        a.spec_path() != b.spec_path(),
{
    reveal_strlit("/api/v1/health");
    reveal_strlit("/api/v1/properties");
    reveal_strlit("/api/v1/users");
    // The three paths have three different lengths.
    assert(Route::Health.spec_path().len() == 14);
    assert(Route::Properties.spec_path().len() == 18);
    assert(Route::Users.spec_path().len() == 13);
}

/// Every path is absolute: it begins with a slash.
pub proof fn lemma_paths_absolute(route: Route)
    ensures
        route.spec_path().len() > 0,
        route.spec_path()[0] == '/',
{
    reveal_strlit("/api/v1/health");
    reveal_strlit("/api/v1/properties");
    reveal_strlit("/api/v1/users");
}

/// The lookup finds a route exactly at that route's own path.
pub proof fn lemma_find_route_exact(path: Seq<char>, route: Route)
    ensures
        spec_find_route(path) == Some(route) <==> path == route.spec_path(),
{
    lemma_paths_distinct(Route::Health, Route::Properties);
    lemma_paths_distinct(Route::Health, Route::Users);
    lemma_paths_distinct(Route::Properties, Route::Users);
}

/// The table lists every route, each once.
pub proof fn lemma_table_complete(route: Route)
    ensures
        all_routes().contains(route),
        all_routes().no_duplicates(),
{
    let table = all_routes();
    assert(table[0] == Route::Health);
    assert(table[1] == Route::Properties);
    assert(table[2] == Route::Users);
}

} // verus!
