//! Rows of the catalog's tables.
pub mod serve;
pub mod service;
pub mod store;
pub mod tag;
