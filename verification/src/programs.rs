//! The programs that the engine knows.

pub mod cargo;
pub mod node;
pub mod vswhere;
