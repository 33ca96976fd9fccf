use axum::body::Body;
use axum::http::{header, Method, Request, Response, StatusCode};
use axum::routing::get;
use axum::Router;
use rust_backend::cors::cors_layer;
use rust_backend::routes::routes;
use rust_backend::service::{handle_get, respond};
use tower::ServiceExt;

/// A router over the library's route table and cross-origin policy, whose
/// handlers answer with the status the library decides.
fn router() -> Router {
    let mut router = Router::new();
    for route in routes() {
        let handler = move || async move { StatusCode::from_u16(respond(route).status).unwrap() };
        router = router.route(route.path(), get(handler));
    }
    router.layer(cors_layer())
}

fn send(request: Request<Body>) -> Response<Body> {
    let runtime = tokio::runtime::Builder::new_current_thread().build().unwrap();
    runtime.block_on(async { router().oneshot(request).await.unwrap() })
}

fn get_from(path: &str, origin: Option<&str>) -> Response<Body> {
    let mut request = Request::builder().method(Method::GET).uri(path);
    if let Some(origin) = origin {
        request = request.header(header::ORIGIN, origin);
    }
    send(request.body(Body::empty()).unwrap())
}

const PROBES: [&str; 10] = [
    "/api/v1/health",
    "/api/v1/properties",
    "/api/v1/users",
    "/api/v1/unknown",
    "/",
    "/api/v1",
    "/api/v1/health/",
    "/api/v1/healthz",
    "/API/V1/HEALTH",
    "/api/v1/users/1",
];

#[test]
fn router_takes_the_route_table() {
    let _ = router();
}

#[test]
fn router_and_library_agree_on_the_status_of_a_path() {
    for path in PROBES {
        let response = get_from(path, None);
        assert_eq!(response.status().as_u16(), handle_get(path).status, "GET {path}");
    }
}

#[test]
fn defined_paths_answer_200() {
    for route in routes() {
        assert_eq!(get_from(route.path(), None).status(), StatusCode::OK);
    }
}

#[test]
fn undefined_path_answers_404() {
    assert_eq!(get_from("/api/v1/unknown", None).status(), StatusCode::NOT_FOUND);
}

#[test]
fn every_response_allows_any_origin() {
    for path in PROBES {
        let response = get_from(path, Some("http://elsewhere.example"));
        let allowed = response
            .headers()
            .get(header::ACCESS_CONTROL_ALLOW_ORIGIN)
            .unwrap_or_else(|| panic!("GET {path}: no allow-origin header"));
        assert_eq!(allowed, "*", "GET {path}");
    }
}

#[test]
fn responses_allow_any_origin_even_unasked() {
    for route in routes() {
        let response = get_from(route.path(), None);
        assert_eq!(response.headers().get(header::ACCESS_CONTROL_ALLOW_ORIGIN).unwrap(), "*");
    }
}

#[test]
fn preflight_allows_any_origin_method_and_header() {
    for route in routes() {
        let request = Request::builder()
            .method(Method::OPTIONS)
            .uri(route.path())
            .header(header::ORIGIN, "http://elsewhere.example")
            .header(header::ACCESS_CONTROL_REQUEST_METHOD, "DELETE")
            .header(header::ACCESS_CONTROL_REQUEST_HEADERS, "x-anything")
            .body(Body::empty())
            .unwrap();
        let response = send(request);
        assert_eq!(response.status(), StatusCode::OK);
        let headers = response.headers();
        assert_eq!(headers.get(header::ACCESS_CONTROL_ALLOW_ORIGIN).unwrap(), "*");
        assert_eq!(headers.get(header::ACCESS_CONTROL_ALLOW_METHODS).unwrap(), "*");
        assert_eq!(headers.get(header::ACCESS_CONTROL_ALLOW_HEADERS).unwrap(), "*");
        assert!(headers.get(header::ACCESS_CONTROL_ALLOW_CREDENTIALS).is_none());
    }
}

#[test]
fn simultaneous_requests_all_complete() {
    let app = router();
    let runtime = tokio::runtime::Builder::new_multi_thread().worker_threads(4).build().unwrap();
    let statuses = runtime.block_on(async {
        let mut tasks = Vec::new();
        for n in 0..100 {
            let path = PROBES[n % 4];
            let app = app.clone();
            tasks.push(tokio::spawn(async move {
                let request = Request::builder().uri(path).body(Body::empty()).unwrap();
                (path, app.oneshot(request).await.unwrap().status())
            }));
        }
        let mut statuses = Vec::new();
        for task in tasks {
            statuses.push(task.await.expect("the request completes"));
        }
        statuses
    });

    assert_eq!(statuses.len(), 100);
    for (path, status) in statuses {
        assert_eq!(status.as_u16(), handle_get(path).status, "GET {path}");
    }
}
