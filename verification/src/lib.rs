//! A typed client-side mapping of a paginated, hyperlinked resource graph.

pub mod api;
pub mod error;
pub mod failure;
pub mod models;
pub mod text;

pub use error::ApiError;
pub use error::Result;
