//! What the key-value store of access tokens holds.
pub mod model;
