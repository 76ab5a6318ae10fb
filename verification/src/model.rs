//! Domain values and entities.
pub mod auth;
pub mod book;
pub mod checkout;
pub mod email;
pub mod entity;
pub mod identifier;
pub mod list;
pub mod timestamp;
pub mod user;
pub mod value_object;
