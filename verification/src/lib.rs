//! The lending engine of a library-management service.
//!
//! A book is lent to one user at a time. The engine decides whether a
//! book may be checked out or returned, records the loan, and keeps that
//! decision and its writes inside one serializable transaction.
//!
//! - [`model`]: validated values (identifiers, titles, e-mail addresses)
//!   and the entities made of them.
//! - [`store::checkout`]: the lending state of a book, the transaction
//!   protocol as a machine that hands out one statement at a time, the
//!   checkout store over tables in memory, and what is proved of them.
//! - [`database`]: the rows that a relational store hands out, the
//!   statements of a lending transaction, and tables in memory that
//!   answer them as a relational store does.
//! - [`repository`]: what the repositories report when they fail.
//! - [`store`]: what the other repositories decide once a store has
//!   answered.
//! - [`api`], [`shared`], [`redis`]: requests, responses and statuses of
//!   the request-handling layer, as plain values.
//!
//! Nothing here waits on a network or reads a clock: whoever drives the
//! engine runs the statements and hands in the instants.
pub mod api;
pub mod database;
pub mod model;
pub mod redis;
pub mod repository;
pub mod shared;
pub mod store;
