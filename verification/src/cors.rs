//! The cross-origin policy: any origin, any method, any request header.
//!
//! The policy is one value, laid over every route alike; there is no
//! per-route override and no handling of credentials. Writing the headers
//! is `tower_http`'s work, so the policy is handed out in its own type.

use vstd::prelude::*;
use tower_http::cors::{Any, CorsLayer};

verus! {

/// `tower_http`'s layer type, carried through as an opaque value.
#[verifier::external_type_specification]
#[verifier::external_body]
pub struct ExCorsLayer(tower_http::cors::CorsLayer);

/// Builds the policy with `CorsLayer::new`, `CorsLayer::allow_origin`,
/// `CorsLayer::allow_methods` and `CorsLayer::allow_headers`, each given
/// `Any`.
///
/// Trusted, and nothing is claimed: the layer is opaque here. Credentials
/// are left off, so the combination that `tower_http` refuses when the
/// layer is applied (credentials together with a wildcard) does not arise.
#[verifier::external_body]
fn any_origin_layer() -> (layer: CorsLayer) {
    CorsLayer::new().allow_origin(Any).allow_methods(Any).allow_headers(Any)
}

/// The cross-origin policy of the service, to be laid over all routes.
pub fn cors_layer() -> (layer: CorsLayer) {
    any_origin_layer()
}

} // verus!
