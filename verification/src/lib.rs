//! Record store for sailing-race definitions.

pub mod api;
pub mod config;
pub mod polar;
pub mod race;
pub mod text;
