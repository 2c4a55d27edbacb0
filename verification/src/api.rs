//! The HTTP-facing layer: the todo record model, request and response
//! shapes, the error taxonomy with its status mapping, and the per-route
//! handler logic.

pub mod error;
pub mod handler;
pub mod request;
pub mod response;
pub mod todo;
