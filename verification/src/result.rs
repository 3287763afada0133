//! The error taxonomy of the traversal layer. Every operation either returns
//! its value or one of these errors; none of them is fatal, and a caller
//! recovers by correcting its use of the protocol or by starting a fresh
//! cursor.

use vstd::prelude::*;

use crate::types::RawStreamItem;

verus! {

/// One alternative of the closed set a typed accessor can ask for: the
/// per-kind null marker, each scalar kind, or one of the three container
/// kinds.
#[derive(Clone, Copy, Debug, PartialEq, Eq, Structural)]
pub enum ValueKind {
    Null,
    Bool,
    Int,
    Float,
    Decimal,
    Timestamp,
    String,
    Symbol,
    Blob,
    Clob,
    List,
    SExp,
    Struct,
}

/// What can go wrong while traversing or reading a document.
#[derive(Clone, Copy, Debug, PartialEq, Eq, Structural)]
pub enum IonError {
    /// Cursor protocol misuse against a well-formed tree: step-in on a
    /// scalar or on nothing, step-out at the top level, field-name outside a
    /// struct field.
    IllegalOperation,
    /// A typed accessor was invoked against the wrong kind; carries the kind
    /// that was asked for and the classification of what was actually there.
    TypeMismatch { expected: ValueKind, actual: RawStreamItem },
    /// An arbitrary-precision integer was requested as a fixed-width type
    /// that cannot hold it.
    NumericRange,
    /// A definition read out of a document did not have the required shape.
    DecodingError,
}

pub type IonResult<T> = Result<T, IonError>;

} // verus!
