//! What can go wrong, by kind.
use vstd::prelude::*;

verus! {

/// An operation that this adapter never supports.
#[derive(Clone, Copy, Debug, PartialEq, Eq, Structural)]
pub enum Operation {
    ReScan,
    Modify,
    Insert,
    Update,
    Delete,
}

/// Why a record could not be turned into a row.
#[derive(Clone, Copy, Debug, PartialEq, Eq, Structural)]
pub enum ProjectionFault {
    /// The record has no field of the column's name (or is no object).
    ColumnNotFound,
    /// The column's declared type is outside the conversion table.
    UnsupportedType,
    /// A timestamp column holds a string that is not RFC 3339.
    MalformedTimestamp,
}

/// The errors that the adapter reports to its host.
#[derive(Debug)]
pub enum FdwError {
    /// A required option is missing.
    Config { option: String },
    /// The request could not be carried out.
    Transport { message: String },
    /// The endpoint answered with a status other than 200.
    HttpStatus { code: u16 },
    /// The response body is not JSON.
    Parse { message: String },
    /// The response lacks the expected array field.
    Schema { field: String },
    /// A column of the requested row could not be filled.
    Projection { column: String, fault: ProjectionFault },
    /// The operation is not supported.
    Unsupported { operation: Operation },
}

} // verus!
