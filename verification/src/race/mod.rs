//! Race records and the store that keeps them.

pub mod error;
pub mod files;
pub mod identifier;
pub mod lifecycle;
pub mod listing;
pub mod model;
pub mod ordering;
pub mod protocol;
pub mod record;
pub mod scan;
pub mod service;
