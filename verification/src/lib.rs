//! Conversion of a restricted literal-expression language — the value syntax
//! of a game's data-dump scripts — into a generic structured value, and a
//! lossless typed codec for the "recipe" record built on top of it.
//!
//! The pipeline: a caller parses source text into a syntax tree and hands a
//! single expression node (modelled by [`syntax::Expr`]) to
//! [`generic_transform::evaluate`], which folds it into a
//! [`generic_transform::Value`]. [`json::value_to_json`] bridges that value
//! to a JSON tree, and [`models::recipe::decode_recipe`] /
//! [`models::recipe::encode_recipe`] convert between JSON trees and typed
//! [`models::recipe::Recipe`] records.

pub mod generic_transform;
pub mod json;
pub mod laws;
pub mod models;
pub mod num;
pub mod syntax;
