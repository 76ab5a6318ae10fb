//! Rows, as the store hands them out.
pub mod auth;
pub mod book;
pub mod checkout;
pub mod user;
