//! A small, verified todo service library: configuration loading, the todo
//! record model, an id-keyed todo store with create/list/get/update/delete
//! operations, and the request-validation and error-mapping rules of the
//! HTTP handlers.

pub mod api;
pub mod config;
pub mod store;
pub mod text;
