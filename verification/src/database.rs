//! The relational store as the lending engine sees it: the rows it reads,
//! the statements it issues, and tables in memory that answer them.
pub mod memory;
pub mod model;
pub mod statement;
pub mod tables;
