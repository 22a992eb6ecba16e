//! A read-only record service: identifier validation, error mapping and the
//! request-handling steps of its two endpoints.
pub mod errors;
pub mod handlers;
pub mod laws;
pub mod models;
pub mod validate;
