//! The closed set of failures an import can meet.

use vstd::prelude::*;

verus! {

/// Why a file name yields no date.
#[derive(Clone, Copy, Debug, PartialEq, Eq, Structural)]
pub enum NameFault {
    /// The name has fewer than 18 bytes.
    TooShort,
    /// The six bytes of the date tag do not spell a calendar date.
    InvalidDate,
}

/// Why a header row was turned down.
#[derive(Clone, Copy, Debug, PartialEq, Eq, Structural)]
pub enum SchemaFault {
    /// The row has `got` columns where `expected` are called for.
    Count { expected: usize, got: usize },
    /// The column at `position` is absent or carries another name.
    Column { position: usize },
}

/// A failure of the import, one variant per kind.
#[derive(Clone, Copy, Debug, PartialEq, Eq, Structural)]
pub enum AppError {
    /// The file name is too short or its date tag cannot be decoded.
    BadName(NameFault),
    /// The header row differs from the expected columns.
    Schema(SchemaFault),
    /// An entity lacked a field that the operation needs.
    MissingValue,
    /// The file system refused an operation.
    Io,
    /// The store refused a query or a statement.
    Store,
    /// A data row does not have the expected shape.
    Decode,
}

impl AppError {
    /// The short tag of the error's kind.
    pub open spec fn kind_spec(self) -> Seq<char> {
        match self {
            AppError::BadName(_) => "bad_name"@,
            AppError::Schema(_) => "csv"@,
            AppError::MissingValue => "missing_value"@,
            AppError::Io => "io"@,
            AppError::Store => "postgres"@,
            AppError::Decode => "csv"@,
        }
    }

    /// The short tag of the error's kind, as the operator sees it.
    pub fn kind(&self) -> (tag: &'static str)
        ensures
            tag@ == self.kind_spec(),
    {
        match self {
            AppError::BadName(_) => "bad_name",
            AppError::Schema(_) => "csv",
            AppError::MissingValue => "missing_value",
            AppError::Io => "io",
            AppError::Store => "postgres",
            AppError::Decode => "csv",
        }
    }
}

} // verus!
