//! The handlers: what each endpoint answers.
//!
//! The two listings are fixed catalogues, built afresh on every call. Their
//! contents are spelled out once, as the spec functions
//! [`property_catalog`] and [`user_catalog`]; the handlers are proved to
//! return exactly those. The health answer is fixed but for its timestamp,
//! which is the RFC 3339 text of the instant at which it was built.

use vstd::prelude::*;
use crate::clock::{is_utc_timestamp, rfc3339_text, UtcInstant};
use crate::model::{HealthResponse, HealthResponseView, Property, PropertyView, User, UserView};

verus! {

/// The health answer that carries `timestamp`.
pub open spec fn health_view(timestamp: Seq<char>) -> HealthResponseView {
    HealthResponseView { status: "ok"@, message: "Rust backend is running"@, timestamp }
}

/// Whether `health` is a health answer built at some instant: the fixed
/// status and message, and the RFC 3339 text of a representable instant.
pub open spec fn is_health_view(health: HealthResponseView) -> bool {
    health == health_view(health.timestamp) && is_utc_timestamp(health.timestamp)
}

/// The health answer around a timestamp that was formatted already.
pub fn health_response(timestamp: String) -> (health: HealthResponse)
    ensures
        health@ == health_view(timestamp@),
{
    HealthResponse {
        status: "ok".to_string(),
        message: "Rust backend is running".to_string(),
        timestamp,
    }
}

/// The health answer as built at the instant `now`.
pub fn health_check_at(now: &UtcInstant) -> (health: HealthResponse)
    ensures
        health@ == health_view(rfc3339_text(now@.secs, now@.nanos)),
        is_health_view(health@),
{
    health_response(now.to_rfc3339())
}

/// The health answer as of the moment of the call, by the system clock.
///
/// Two calls may differ in their timestamps, and in nothing else.
pub fn health_check() -> (health: HealthResponse)
    ensures
        is_health_view(health@),
{
    let now = UtcInstant::now();
    health_check_at(&now)
}

/// The property listings, in the order in which they are served.
pub open spec fn property_catalog() -> Seq<PropertyView> {
    seq![
        PropertyView {
            id: 1,
            title: "Casa Moderna"@,
            description: "Linda casa com 3 quartos"@,
            price_cents: 45_000_000,
            location: "São Paulo, SP"@,
            property_type: "Casa"@,
            status: "Disponível"@,
        },
        PropertyView {
            id: 2,
            title: "Apartamento Centro"@,
            description: "Apartamento no centro da cidade"@,
            price_cents: 32_000_000,
            location: "Rio de Janeiro, RJ"@,
            property_type: "Apartamento"@,
            status: "Vendido"@,
        },
    ]
}

/// The user accounts, in the order in which they are served.
pub open spec fn user_catalog() -> Seq<UserView> {
    seq![
        UserView { id: 1, name: "João Silva"@, email: "joao@email.com"@, role: "Admin"@ },
        UserView { id: 2, name: "Maria Santos"@, email: "maria@email.com"@, role: "User"@ },
    ]
}

/// Builds the property listings.
pub fn get_properties() -> (properties: Vec<Property>)
    ensures
        properties.deep_view() == property_catalog(),
{
    let mut properties: Vec<Property> = Vec::new();
    properties.push(
        Property {
            id: 1,
            title: "Casa Moderna".to_string(),
            description: "Linda casa com 3 quartos".to_string(),
            price_cents: 45_000_000,
            location: "São Paulo, SP".to_string(),
            property_type: "Casa".to_string(),
            status: "Disponível".to_string(),
        },
    );
    properties.push(
        Property {
            id: 2,
            title: "Apartamento Centro".to_string(),
            description: "Apartamento no centro da cidade".to_string(),
            price_cents: 32_000_000,
            location: "Rio de Janeiro, RJ".to_string(),
            property_type: "Apartamento".to_string(),
            status: "Vendido".to_string(),
        },
    );
    assert(properties.deep_view() =~= property_catalog());
    properties
}

/// Builds the user accounts.
pub fn get_users() -> (users: Vec<User>)
    ensures
        users.deep_view() == user_catalog(),
{
    let mut users: Vec<User> = Vec::new();
    users.push(
        User {
            id: 1,
            name: "João Silva".to_string(),
            email: "joao@email.com".to_string(),
            role: "Admin".to_string(),
        },
    );
    users.push(
        User {
            id: 2,
            name: "Maria Santos".to_string(),
            email: "maria@email.com".to_string(),
            role: "User".to_string(),
        },
    );
    assert(users.deep_view() =~= user_catalog());
    users
}

/// No two property listings share an id.
pub proof fn lemma_property_ids_unique(i: int, j: int)
    requires
        0 <= i < property_catalog().len(),
        0 <= j < property_catalog().len(),
        i != j,
    ensures
        property_catalog()[i].id != property_catalog()[j].id,
{
}

/// No two user accounts share an id.
pub proof fn lemma_user_ids_unique(i: int, j: int)
    requires
        0 <= i < user_catalog().len(),
        0 <= j < user_catalog().len(),
        i != j,
    ensures
        user_catalog()[i].id != user_catalog()[j].id,
{
}

} // verus!
