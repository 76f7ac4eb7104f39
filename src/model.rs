//! The resolved resources the builder reads, the tree it produces, and its errors.
use vstd::prelude::*;

verus! {

/// A resource as resolved from the store, reduced to the attributes that
/// generation reads. Each attribute is its value as text, `None` when absent;
/// list-valued attributes are comma-joined subjects.
#[derive(Debug, Clone, PartialEq, Eq)]
pub struct ResourceData {
    pub subject: String,
    pub shortname: Option<String>,
    pub description: Option<String>,
    pub classes: Option<String>,
    pub properties: Option<String>,
    pub requires: Option<String>,
    pub datatype: Option<String>,
}

/// One property of the schema.
#[derive(Debug, Clone, PartialEq, Eq)]
pub struct PropertyData {
    pub name: String,
    pub shortname: String,
    pub description: String,
    pub rust_type: String,
    pub subject: String,
    pub required: bool,
}

/// One class of the schema, with its required properties.
#[derive(Debug, Clone, PartialEq, Eq)]
pub struct ClassData {
    pub name: String,
    pub description: String,
    pub shortname: String,
    pub subject: String,
    pub properties: Vec<PropertyData>,
}

/// One ontology: a module of the generated crate.
#[derive(Debug, Clone, PartialEq, Eq)]
pub struct OntologyData {
    pub name: String,
    pub module_name: String,
    pub description: String,
    pub classes: Vec<ClassData>,
    pub properties: Vec<PropertyData>,
}

/// The generated crate as a whole.
#[derive(Debug, Clone, PartialEq, Eq)]
pub struct CrateData {
    pub name: String,
    pub version: String,
    pub description: String,
    pub ontologies: Vec<OntologyData>,
}

/// The attribute whose absence makes a resource unusable.
#[derive(Debug, Clone, Copy, PartialEq, Eq, Structural)]
pub enum Field {
    Shortname,
    Datatype,
}

/// Why generation stopped.
#[derive(Debug, Clone, PartialEq, Eq)]
pub enum GenError {
    /// No ontology was configured.
    Config,
    /// The subject did not resolve.
    NotFound(String),
    /// The resource with this subject lacks the field.
    MissingField(String, Field),
    /// A template failed to render.
    Render(String),
    /// Writing the output failed.
    Io(String),
}

} // verus!
