//! Requests and responses, as plain values.
pub mod auth;
pub mod book;
pub mod checkout;
pub mod user;
