//! A library around resolved WIT schema graphs: it flattens a multi-package
//! graph into one self-contained textual document of nested package blocks,
//! and resolves a textual function call against a package's world exports
//! into a typed function signature and typed argument values.

pub mod calls;
pub mod flatten;
pub mod render;
pub mod schema;
