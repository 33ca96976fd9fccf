//! The records the service hands out, each with its mathematical view.
//!
//! A record owns its strings; its view holds them as sequences of
//! characters, so that contracts can say exactly what a record contains.

use vstd::prelude::*;

verus! {

/// Answer of the health endpoint.
#[derive(Debug, PartialEq, Eq)]
pub struct HealthResponse {
    pub status: String,
    pub message: String,
    /// The moment the answer was built, as RFC 3339 text in UTC.
    pub timestamp: String,
}

/// What a [`HealthResponse`] holds.
pub struct HealthResponseView {
    pub status: Seq<char>,
    pub message: Seq<char>,
    pub timestamp: Seq<char>,
}

impl View for HealthResponse {
    type V = HealthResponseView;

    open spec fn view(&self) -> HealthResponseView {
        HealthResponseView {
            status: self.status@,
            message: self.message@,
            timestamp: self.timestamp@,
        }
    }
}

impl DeepView for HealthResponse {
    type V = HealthResponseView;

    open spec fn deep_view(&self) -> HealthResponseView {
        self@
    }
}

/// A property listing.
///
/// The price is kept exact, in hundredths of a currency unit: `45_000_000`
/// stands for 450000.00 units.
#[derive(Debug, PartialEq, Eq)]
pub struct Property {
    pub id: u32,
    pub title: String,
    pub description: String,
    pub price_cents: u64,
    pub location: String,
    pub property_type: String,
    pub status: String,
}

/// What a [`Property`] holds.
pub struct PropertyView {
    pub id: nat,
    pub title: Seq<char>,
    pub description: Seq<char>,
    pub price_cents: nat,
    pub location: Seq<char>,
    pub property_type: Seq<char>,
    pub status: Seq<char>,
}

impl View for Property {
    type V = PropertyView;

    open spec fn view(&self) -> PropertyView {
        PropertyView {
            id: self.id as nat,
            title: self.title@,
            description: self.description@,
            price_cents: self.price_cents as nat,
            location: self.location@,
            property_type: self.property_type@,
            status: self.status@,
        }
    }
}

impl DeepView for Property {
    type V = PropertyView;

    open spec fn deep_view(&self) -> PropertyView {
        self@
    }
}

/// A user account.
#[derive(Debug, PartialEq, Eq)]
pub struct User {
    pub id: u32,
    pub name: String,
    pub email: String,
    pub role: String,
}

/// What a [`User`] holds.
pub struct UserView {
    pub id: nat,
    pub name: Seq<char>,
    pub email: Seq<char>,
    pub role: Seq<char>,
}

impl View for User {
    type V = UserView;

    open spec fn view(&self) -> UserView {
        UserView { id: self.id as nat, name: self.name@, email: self.email@, role: self.role@ }
    }
}

impl DeepView for User {
    type V = UserView;

    open spec fn deep_view(&self) -> UserView {
        self@
    }
}

} // verus!
