//! What each handler decides: the event it makes of a request, and the
//! status it answers a failure with.
pub mod auth;
pub mod book;
pub mod checkout;
pub mod health;
pub mod user;
