//! The errors of decoding and resolution.

use vstd::prelude::*;

verus! {

/// Why a URI could not be decoded or a reference could not be resolved.
/// Every one of them ends the command that met it.
#[derive(Debug, PartialEq, Eq)]
pub enum GitUriError {
    /// The URI's scheme is not `git`.
    UnsupportedScheme { scheme: String },
    /// The first part of the URI's path names no kind of reference.
    UnknownKind { kind: String },
    /// A part that the grammar requires, such as the hash, is absent or empty.
    MissingComponent,
    /// The URI breaks the grammar in another way.
    InvalidUri,
    /// The store reported another kind of object than the reference requires.
    TypeMismatch { expected: String, actual: String },
    /// A path segment is not an entry of the tree reached by the segments
    /// before it, which `prefix` holds joined by `/`.
    PathNotFound { segment: String, prefix: String },
    /// The object store failed to answer a query.
    StoreError { message: String },
}

/// The mathematical value of a [`GitUriError`].
pub enum ErrorModel {
    UnsupportedScheme(Seq<char>),
    UnknownKind(Seq<char>),
    MissingComponent,
    InvalidUri,
    TypeMismatch(Seq<char>, Seq<char>),
    PathNotFound(Seq<char>, Seq<char>),
    StoreError(Seq<char>),
}

impl View for GitUriError {
    type V = ErrorModel;

    open spec fn view(&self) -> ErrorModel {
        match self {
            GitUriError::UnsupportedScheme { scheme } => ErrorModel::UnsupportedScheme(scheme@),
            GitUriError::UnknownKind { kind } => ErrorModel::UnknownKind(kind@),
            GitUriError::MissingComponent => ErrorModel::MissingComponent,
            GitUriError::InvalidUri => ErrorModel::InvalidUri,
            GitUriError::TypeMismatch { expected, actual } => ErrorModel::TypeMismatch(
                expected@,
                actual@,
            ),
            GitUriError::PathNotFound { segment, prefix } => ErrorModel::PathNotFound(
                segment@,
                prefix@,
            ),
            GitUriError::StoreError { message } => ErrorModel::StoreError(message@),
        }
    }
}

} // verus!
