//! The single error value of the pass.
//!
//! Every failure of the coercion pass is one of these variants; all are
//! fatal, surfaced bottom-up to the caller with no retry and no partial
//! result.

use vstd::prelude::*;

use crate::datatypes::DataType;

verus! {

/// An error raised while rewriting a plan or an expression.
#[derive(Debug)]
pub enum PlanError {
    /// A referenced column name is absent from the active schema.
    UnresolvedColumn(String),
    /// A scalar function name is absent from the registry.
    UnknownFunction(String),
    /// The two types have no lossless common supertype.
    IncompatibleTypes(DataType, DataType),
    /// A wildcard expression reached the pass; wildcards must have been
    /// expanded to concrete columns upstream.
    InvalidWildcard,
    /// A scalar function call carries more arguments than its registered
    /// signature declares parameters.
    SignatureMismatch(String),
    /// The plan builder rejected a reconstructed node because two output
    /// fields share this name.
    DuplicateField(String),
}

/// Mathematical model of a [`PlanError`].
#[verifier::ext_equal]
pub ghost enum ErrorV {
    UnresolvedColumn(Seq<char>),
    UnknownFunction(Seq<char>),
    IncompatibleTypes(DataType, DataType),
    InvalidWildcard,
    SignatureMismatch(Seq<char>),
    DuplicateField(Seq<char>),
}

impl View for PlanError {
    type V = ErrorV;

    open spec fn view(&self) -> ErrorV {
        match self {
            PlanError::UnresolvedColumn(name) => ErrorV::UnresolvedColumn(name@),
            PlanError::UnknownFunction(name) => ErrorV::UnknownFunction(name@),
            PlanError::IncompatibleTypes(a, b) => ErrorV::IncompatibleTypes(*a, *b),
            PlanError::InvalidWildcard => ErrorV::InvalidWildcard,
            PlanError::SignatureMismatch(name) => ErrorV::SignatureMismatch(name@),
            PlanError::DuplicateField(name) => ErrorV::DuplicateField(name@),
        }
    }
}

} // verus!
