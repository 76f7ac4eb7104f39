//! Turns an ontology held in an Atomic Data store into a template-ready
//! description of a generated crate: its modules, classes and properties.
pub mod ident;
pub mod model;
pub mod datatype;
pub mod builder;
pub mod generator;
pub mod layout;

