//! The service as a function from the path of a GET request to a response.
//!
//! A path in the route table is answered with status 200 and the record or
//! listing of its handler; any other path with status 404 and no body.
//! Which methods a route accepts is the HTTP framework's business, not this
//! module's.

use vstd::prelude::*;
use crate::handlers::{
    get_properties, get_users, health_check, is_health_view, property_catalog, user_catalog,
};
use crate::model::{
    HealthResponse, HealthResponseView, Property, PropertyView, User, UserView,
};
use crate::routes::{find_route, spec_find_route, Route};

verus! {

/// Where the service listens: every network interface, port 8080.
pub const BIND_ADDRESS: &'static str = "0.0.0.0:8080";

/// Status of every answer of a handler.
pub const STATUS_OK: u16 = 200;

/// Status of the answer to a path outside the route table.
pub const STATUS_NOT_FOUND: u16 = 404;

/// What a response carries, before it is written out as JSON.
#[derive(Debug, PartialEq, Eq)]
pub enum Body {
    Empty,
    Health(HealthResponse),
    Properties(Vec<Property>),
    Users(Vec<User>),
}

/// What a [`Body`] holds.
pub enum BodyView {
    Empty,
    Health(HealthResponseView),
    Properties(Seq<PropertyView>),
    Users(Seq<UserView>),
}

impl View for Body {
    type V = BodyView;

    open spec fn view(&self) -> BodyView {
        match self {
            Body::Empty => BodyView::Empty,
            Body::Health(health) => BodyView::Health(health@),
            Body::Properties(properties) => BodyView::Properties(properties.deep_view()),
            Body::Users(users) => BodyView::Users(users.deep_view()),
        }
    }
}

/// A response: the HTTP status and the body.
#[derive(Debug, PartialEq, Eq)]
pub struct Response {
    pub status: u16,
    pub body: Body,
}

/// What a [`Response`] holds.
pub struct ResponseView {
    pub status: u16,
    pub body: BodyView,
}

impl View for Response {
    type V = ResponseView;

    open spec fn view(&self) -> ResponseView {
        ResponseView { status: self.status, body: self.body@ }
    }
}

/// Whether `response` is an answer of the handler of `route`.
pub open spec fn is_answer(route: Route, response: ResponseView) -> bool {
    &&& response.status == STATUS_OK
    &&& match route {
        Route::Health => response.body matches BodyView::Health(health) && is_health_view(health),
        Route::Properties => response.body == BodyView::Properties(property_catalog()),
        Route::Users => response.body == BodyView::Users(user_catalog()),
    }
}

/// The one response to a path outside the route table.
pub open spec fn not_found_view() -> ResponseView {
    ResponseView { status: STATUS_NOT_FOUND, body: BodyView::Empty }
}

/// Whether `response` is an answer of the service to a GET request for
/// `path`.
pub open spec fn is_response_to(path: Seq<char>, response: ResponseView) -> bool {
    match spec_find_route(path) {
        Some(route) => is_answer(route, response),
        None => response == not_found_view(),
    }
}

/// Runs the handler of `route`.
pub fn respond(route: Route) -> (response: Response)
    ensures
        is_answer(route, response@),
{
    let body = match route {
        Route::Health => Body::Health(health_check()),
        Route::Properties => Body::Properties(get_properties()),
        Route::Users => Body::Users(get_users()),
    };
    Response { status: STATUS_OK, body }
}

/// Answers a GET request for `path`.
pub fn handle_get(path: &str) -> (response: Response)
    ensures
        is_response_to(path@, response@),
{
    match find_route(path) {
        Some(route) => respond(route),
        None => Response { status: STATUS_NOT_FOUND, body: Body::Empty },
    }
}

/// Every answer of the health endpoint has status 200, the status text
/// `ok`, the fixed message, and the RFC 3339 text of a representable
/// instant as its timestamp.
pub proof fn lemma_health_answer(response: ResponseView)
    requires
        is_response_to(Route::Health.spec_path(), response),
    ensures
        response.status == 200,
        response.body is Health,
        response.body->Health_0.status == "ok"@,
        response.body->Health_0.message == "Rust backend is running"@,
        crate::clock::is_utc_timestamp(response.body->Health_0.timestamp),
{
}

/// Two answers of the health endpoint agree in all but their timestamps.
pub proof fn lemma_health_answers_agree(first: ResponseView, second: ResponseView)
    requires
        is_response_to(Route::Health.spec_path(), first),
        is_response_to(Route::Health.spec_path(), second),
    ensures
        first.status == second.status,
        first.body is Health,
        second.body is Health,
        first.body->Health_0.status == second.body->Health_0.status,
        first.body->Health_0.message == second.body->Health_0.message,
{
}

/// Every answer of the properties endpoint has status 200 and holds the
/// same two listings: ids 1 and 2, with their titles and prices.
pub proof fn lemma_properties_answer(response: ResponseView)
    requires
        is_response_to(Route::Properties.spec_path(), response),
    ensures
        response.status == 200,
        response.body is Properties,
        response.body->Properties_0 == property_catalog(),
        response.body->Properties_0.len() == 2,
        response.body->Properties_0[0].id == 1,
        response.body->Properties_0[0].title == "Casa Moderna"@,
        response.body->Properties_0[0].price_cents == 450_000 * 100,
        response.body->Properties_0[1].id == 2,
        response.body->Properties_0[1].title == "Apartamento Centro"@,
        response.body->Properties_0[1].price_cents == 320_000 * 100,
{
    crate::routes::lemma_find_route_exact(Route::Properties.spec_path(), Route::Properties);
}

/// Every answer of the users endpoint has status 200 and holds the same
/// two accounts: id 1 with role `Admin`, id 2 with role `User`.
pub proof fn lemma_users_answer(response: ResponseView)
    requires
        is_response_to(Route::Users.spec_path(), response),
    ensures
        response.status == 200,
        response.body is Users,
        response.body->Users_0 == user_catalog(),
        response.body->Users_0.len() == 2,
        response.body->Users_0[0].id == 1,
        response.body->Users_0[0].role == "Admin"@,
        response.body->Users_0[1].id == 2,
        response.body->Users_0[1].role == "User"@,
{
    crate::routes::lemma_find_route_exact(Route::Users.spec_path(), Route::Users);
}

/// A path that is not the path of any route is answered with status 404
/// and no body.
pub proof fn lemma_unknown_path_not_found(path: Seq<char>, response: ResponseView)
    requires
        forall|route: Route| path != #[trigger] route.spec_path(),
        is_response_to(path, response),
    ensures
        response.status == 404,
        response.body is Empty,
{
    assert(path != Route::Health.spec_path());
    assert(path != Route::Properties.spec_path());
    assert(path != Route::Users.spec_path());
}

/// The status is 200 exactly on the paths of the route table, and 404 on
/// all others.
pub proof fn lemma_status_by_path(path: Seq<char>, response: ResponseView)
    requires
        is_response_to(path, response),
    ensures
        response.status == 200 <==> spec_find_route(path) is Some,
        response.status == 404 <==> spec_find_route(path) is None,
{
}

/// Apart from the timestamp of the health endpoint, an answer depends on
/// the path alone: whenever and however often a path is requested, and
/// whatever else is being served, the answers are equal.
pub proof fn lemma_answers_depend_on_path_alone(
    path: Seq<char>,
    first: ResponseView,
    second: ResponseView,
)
    requires
        is_response_to(path, first),
        is_response_to(path, second),
    ensures
        first.status == second.status,
        spec_find_route(path) != Some(Route::Health) ==> first == second,
        spec_find_route(path) == Some(Route::Health) ==> {
            &&& first.body is Health
            &&& second.body is Health
            &&& first.body->Health_0.status == second.body->Health_0.status
            &&& first.body->Health_0.message == second.body->Health_0.message
        },
{
}

} // verus!
