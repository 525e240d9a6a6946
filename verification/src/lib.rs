//! A compile-time pipeline for exposing a type's methods to a plugin host.
//!
//! Given a model of a method-collection construct (an owner type together
//! with its ordered member items), the pipeline finds the members that carry
//! the `export` marker attribute, removes the marker, validates and
//! normalizes the marked signatures, and produces the list of registrations
//! that a host-supplied builder performs under the functions' string names.

pub mod filter;
pub mod laws;
pub mod model;
pub mod names;
pub mod pipeline;
pub mod validate;
