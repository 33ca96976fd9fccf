//! A small listings service as a library: the records it serves, the
//! handlers that build them, the route table, and the cross-origin policy.

pub mod clock;
pub mod cors;
pub mod handlers;
pub mod model;
pub mod routes;
pub mod service;
