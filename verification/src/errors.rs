//! What can go wrong while a scheme is built, a definition is read or a
//! context is filled.

use vstd::prelude::*;
use crate::types::Type;

verus! {

/// A value was offered to a field whose scheme declares another type.
#[derive(Clone, Copy, Debug, PartialEq, Eq, Structural)]
pub struct TypeMismatchError {
    /// The type that the scheme declares for the field.
    pub expected: Type,
    /// The type of the value that was offered.
    pub actual: Type,
}

/// Why a definition could not be read or a context could not be filled.
#[derive(Clone, Copy, Debug, PartialEq, Eq, Structural)]
pub enum Error {
    /// A field that is not ignored has a type for which no semantic type is
    /// registered.
    UnsupportedType,
    /// An annotation is not of the form `key = literal`.
    MalformedAnnotation,
    /// A value's type differs from the one that the scheme declares for its
    /// field.
    TypeMismatchError(TypeMismatchError),
    /// A value was offered to a field that the scheme does not declare.
    UnknownField,
    /// An instance holds more or fewer values than its structure has fields.
    ValueCountMismatch,
}

/// Why a list of fields is no scheme.
#[derive(Clone, Copy, Debug, PartialEq, Eq, Structural)]
pub enum SchemeError {
    /// A path is empty, or one of its segments is.
    MalformedPath,
    /// A path stands in the list twice.
    FieldRedefinition,
}

} // verus!
