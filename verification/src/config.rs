//! Configuration loading: typed settings read from captured environment
//! values, with missing/invalid errors reported per key.

pub mod app;
pub mod database;
pub mod error;
pub mod read;
pub mod root;
pub mod variables;
