//! What the request-handling layer hands in and gets back.
pub mod extractor;
pub mod handler;
pub mod model;
