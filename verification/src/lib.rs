//! Caching and session-validation core of a small authenticated web service.
//!
//! The store, the HTTP layer and the template renderer are collaborators that
//! live outside this crate; the types here hold the cache state and decide,
//! for every request, what the caller must do next (serve a cached value,
//! query the store, or wait for a population that is already under way).

pub mod audit;
pub mod backend;
pub mod cached;
pub mod images;
pub mod models;
pub mod outside;
pub mod routes;
pub mod state;
pub mod utils;

pub use cached::BodyCache;
pub use cached::TimedCachedValue;
pub use models::Account;
pub use state::AppState;
pub use state::SessionInfo;
