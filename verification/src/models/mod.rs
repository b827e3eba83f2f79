//! The data that a status page is rendered from.

pub mod crates;
pub mod repo;
