//! A dispatcher in front of a nearest-neighbour search engine that is split
//! into one shard per country.
//!
//! A request names a country and carries the events of one user. The
//! dispatcher counts the request, opens a latency scope, looks the country's
//! shard up, hands the translated events to the shard, turns what the shard
//! found into a response, and closes the latency scope on every way out.
//!
//! The engine is any type that can load a shard and search it
//! ([`SearchEngine`]). Requests are counted in a bucket of `dipstick` and
//! timed into a histogram of `metrics_runtime`, both handed to the
//! dispatcher when it is built.

pub mod controller;
pub mod counter;
pub mod country;
pub mod engine;
pub mod error;
pub mod journal;
pub mod latency;
pub mod messages;
pub mod registry;
pub mod registry_laws;
pub mod response;
pub mod translate;

pub use controller::KnnController;
pub use engine::{Score, SearchEngine, UserEvent};
pub use error::{DispatchError, LoadError, LoadFailure, StatusCode};
pub use latency::{LatencyHistogram, TimeHandle};
pub use registry::ShardRegistry;
