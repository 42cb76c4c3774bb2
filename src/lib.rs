//! A movie catalog: records, the repository contract over them, an in-memory
//! store that meets it, the statements and outcome rules of a relational
//! store, and the service layer that assigns identifiers and delegates.
pub mod config;
pub mod error;
pub mod laws;
pub mod memory;
pub mod model;
pub mod record;
pub mod repository;
pub mod service;
pub mod store;
