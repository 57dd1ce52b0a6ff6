//! Derives the optional projection of a record declaration: a new record named
//! with the suffix `Optional` whose fields keep their names, order and
//! visibility, and whose types are wrapped in `Option` unless already optional.

pub mod schema;
pub mod classify;
pub mod project;
pub mod render;
pub mod derive;
