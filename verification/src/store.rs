//! The repositories over the store.
pub mod auth;
pub mod book;
pub mod checkout;
pub mod health;
pub mod password;
pub mod user;
