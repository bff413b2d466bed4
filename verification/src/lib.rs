//! Core logic of a small log-ingestion service.
//!
//! The library covers the decision-making parts of the service: building
//! parameterized SQL statements from structured filters, screening free-text
//! queries down to read-only statements, projecting database-native values
//! into a JSON-compatible model, deriving write timestamps, and an in-memory
//! model of the append-only log table that gives the built statements their
//! meaning. Process bootstrap, HTTP routing and the database connection live
//! outside the library and exchange plain values with it.

pub mod entry;
pub mod error;
pub mod like;
pub mod project;
pub mod query;
pub mod store;
pub mod text;
pub mod time;
