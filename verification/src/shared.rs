//! What every layer shares.
pub mod env;
pub mod error;
