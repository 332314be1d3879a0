//! The store of artifacts of the CI provider.

pub mod download;
pub mod models;
pub mod raw;
