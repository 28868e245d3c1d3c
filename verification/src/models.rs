//! Typed record models.

pub mod recipe;
