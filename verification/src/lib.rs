//! Verified core of the MyMe productivity hub: weather data rules, service
//! error types and messages, the state of the UI list models, and the
//! developer tools (encoding, hashing, UUIDs, JWT, JSON and time helpers).

pub mod weather;
pub mod text;
pub mod order;
pub mod codec;
pub mod digests;
pub mod numbers;
pub mod dates;
pub mod stamp;
pub mod uuids;
pub mod services;
pub mod models;
pub mod json;
