//! Field reflection for rule matching: from the definition of a structure to
//! the ordered, typed fields of a scheme, and from one instance of it to an
//! execution context that holds a value for each of those fields.

pub mod types;
pub mod errors;
pub mod scheme;
pub mod execution_context;
pub mod scan;
pub mod syntax;
pub mod derive;
pub mod instance;
pub mod annotations;
pub mod resolver;
pub mod reflect;
pub mod laws;
