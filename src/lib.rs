//! Builder generation for records with named fields.
//!
//! The library extracts a field schema from a type declaration and synthesizes
//! the items of a companion builder type from it: the builder struct, the
//! factory method on the record, one setter per field, and the finalizer.
//! It also models how the generated builder behaves when it runs.

pub mod codegen;
pub mod record_builder;
pub mod schema;
