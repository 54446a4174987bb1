//! The bridge's error taxonomy.
//!
//! Every failure is returned to the immediate caller at the bridge boundary;
//! none is swallowed and none is retried. Sentinel type tags on live columns
//! are an invariant violation, not an error value: the well-formedness
//! invariants of this crate prove they cannot occur.

use vstd::prelude::*;

verus! {

/// What a bridge operation can fail with.
#[derive(Clone, Copy, Debug, PartialEq, Eq, Structural)]
pub enum BridgeError {
    /// Table construction: the name and type sequences differ in length, or
    /// an input row does not have one cell per column.
    MismatchedLengths,
    /// Table construction: the designated index column is not among the
    /// column names.
    UnknownIndexColumn,
    /// Table construction: a column name occurs more than once.
    DuplicateName,
    /// A column name or port lookup missed.
    NotFound,
    /// A scalar read at an index at or past the column's length.
    OutOfBounds,
    /// An input row's cell carries a different type tag than its column.
    MismatchedType,
    /// An input row would push the table past its row-count limit.
    LimitExceeded,
    /// An ingestion adapter that is specified in shape only.
    NotImplemented,
}

impl BridgeError {
    /// The stable text label of this error.
    pub open spec fn label_spec(self) -> Seq<char> {
        match self {
            BridgeError::MismatchedLengths => "mismatched lengths"@,
            BridgeError::UnknownIndexColumn => "unknown index column"@,
            BridgeError::DuplicateName => "duplicate column name"@,
            BridgeError::NotFound => "not found"@,
            BridgeError::OutOfBounds => "out of bounds"@,
            BridgeError::MismatchedType => "mismatched type"@,
            BridgeError::LimitExceeded => "limit exceeded"@,
            BridgeError::NotImplemented => "not implemented"@,
        }
    }

    /// Renders the error under its stable text label.
    pub fn label(&self) -> (r: String)
        ensures
            r@ == self.label_spec(),
    {
        let s: &str = match self {
            BridgeError::MismatchedLengths => "mismatched lengths",
            BridgeError::UnknownIndexColumn => "unknown index column",
            BridgeError::DuplicateName => "duplicate column name",
            BridgeError::NotFound => "not found",
            BridgeError::OutOfBounds => "out of bounds",
            BridgeError::MismatchedType => "mismatched type",
            BridgeError::LimitExceeded => "limit exceeded",
            BridgeError::NotImplemented => "not implemented",
        };
        s.to_owned()
    }
}

} // verus!
