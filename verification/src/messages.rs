//! The messages that cross the boundary between callers and the dispatcher.

use vstd::prelude::*;
use crate::engine::Score;

verus! {

/// One interaction of a user with a product, as a caller sends it.
#[derive(Clone, Copy, Debug, PartialEq, Eq)]
pub struct EventMessage {
    pub partner_id: i32,
    pub product_id: i64,
    /// May be negative on the wire; see [`crate::translate::clamped_timestamp`].
    pub timestamp: i64,
    pub event_type: i32,
}

/// A search request: the country to search in, the user's events, the index
/// to search and how many products to return at most.
#[derive(Clone, Debug, PartialEq, Eq)]
pub struct KnnRequest {
    pub country: String,
    pub user_events: Vec<EventMessage>,
    pub index_id: i32,
    pub result_count: u32,
}

/// One product of a search response. `dotproduct` and `squared_l2_norm` are
/// kept for a later breakdown of the score and are zero in every response.
#[derive(Clone, Copy, Debug, PartialEq, Eq)]
pub struct Product {
    pub product_id: i64,
    pub score: Score,
    pub dotproduct: Score,
    pub squared_l2_norm: Score,
}

/// A search response: the products found, best first as the shard ranked them.
#[derive(Clone, Debug, PartialEq, Eq)]
pub struct KnnResponse {
    pub products: Vec<Product>,
}

/// A country that can be searched.
#[derive(Clone, Debug, PartialEq, Eq)]
pub struct CountryInfo {
    pub name: String,
}

/// The countries that can be searched at present.
#[derive(Clone, Debug, PartialEq, Eq)]
pub struct AvailableCountriesResponse {
    pub countries: Vec<CountryInfo>,
}

/// Asks for the indices of a country.
#[derive(Clone, Debug, PartialEq, Eq)]
pub struct IndicesRequest {
    pub country: String,
}

/// The indices of a country.
#[derive(Clone, Debug, PartialEq, Eq)]
pub struct IndicesResponse {
    pub indices: Vec<i32>,
}

/// Asks for the products of one index of a country.
#[derive(Clone, Debug, PartialEq, Eq)]
pub struct IndexedProductsRequest {
    pub country: String,
    pub index_id: i32,
}

/// The products of one index of a country.
#[derive(Clone, Debug, PartialEq, Eq)]
pub struct IndexedProductsResponse {
    pub products: Vec<i64>,
}

} // verus!
