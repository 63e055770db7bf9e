//! The values that the interface exchanges with its callers.

pub mod leg;
pub mod race;
