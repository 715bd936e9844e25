//! Weather conditions, location errors and the freshness rules of the
//! weather cache.

pub mod types;
pub mod cache;
pub mod geocode;
pub mod location;
