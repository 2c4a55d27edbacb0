//! The persistence layer: an id-keyed todo store and the five data-access
//! operations over it.

pub mod repository;
