//! What the repositories report.
pub mod auth;
pub mod book;
pub mod checkout;
pub mod health;
pub mod user;
