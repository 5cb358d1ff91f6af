//! Shared helpers.

pub mod cache;
pub mod text;
