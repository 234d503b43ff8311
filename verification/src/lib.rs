//! A repository layer over a MongoDB collection: connection configuration,
//! document time-stamping, result pagination and the mapping of driver
//! outcomes onto the repository's own error type.

pub mod config;
pub mod text;
pub mod entries;
pub mod document;
pub mod datetime;
pub mod error;
pub mod json;
pub mod pagination;
pub mod service;
pub mod bson_json;
