//! The error taxonomy: decode errors, backend-reported database
//! errors, protocol violations, and the typed not-found error.

use vstd::prelude::*;
use crate::decode::DecodeError;

verus! {

/// An error reported by the backend engine: its message and its native
/// (extended) result code.
#[derive(Debug)]
pub struct DatabaseError {
    pub message: String,
    pub code: i32,
}

/// Mathematical model of a [`DatabaseError`].
pub struct DatabaseErrorModel {
    pub message: Seq<char>,
    pub code: i32,
}

impl View for DatabaseError {
    type V = DatabaseErrorModel;

    open spec fn view(&self) -> DatabaseErrorModel {
        DatabaseErrorModel { message: self.message@, code: self.code }
    }
}

/// Any error from issuing a query or reading its results.
#[derive(Debug)]
pub enum Error {
    /// `fetch_one` produced no row: a typed error, distinct from a
    /// database error.
    RowNotFound,
    /// A column name was not present in the statement's name table.
    ColumnNotFound(String),
    /// A column position was outside the row.
    ColumnIndexOutOfBounds { index: usize, len: usize },
    /// Bytes were present but not interpretable as the requested type.
    Decode(DecodeError),
    /// The backend rejected a statement or reported a runtime failure.
    Database(DatabaseError),
    /// A malformed message, or statement text exceeding engine limits.
    Protocol(String),
}

/// Mathematical model of an [`Error`].
pub enum ErrorModel {
    RowNotFound,
    ColumnNotFound(Seq<char>),
    ColumnIndexOutOfBounds { index: usize, len: usize },
    Decode(DecodeError),
    Database(DatabaseErrorModel),
    Protocol(Seq<char>),
}

impl View for Error {
    type V = ErrorModel;

    open spec fn view(&self) -> ErrorModel {
        match self {
            Error::RowNotFound => ErrorModel::RowNotFound,
            Error::ColumnNotFound(n) => ErrorModel::ColumnNotFound(n@),
            Error::ColumnIndexOutOfBounds { index, len } => ErrorModel::ColumnIndexOutOfBounds {
                index: *index,
                len: *len,
            },
            Error::Decode(e) => ErrorModel::Decode(*e),
            Error::Database(e) => ErrorModel::Database(e@),
            Error::Protocol(m) => ErrorModel::Protocol(m@),
        }
    }
}

impl Error {
    /// A short description of the error kind.
    pub fn kind_message(&self) -> (r: &'static str)
        ensures
            self@ is RowNotFound ==> r@ == "no rows returned by a query that expected to return at least one row"@,
            self@ is ColumnNotFound ==> r@ == "no column found with the given name"@,
            self@ is ColumnIndexOutOfBounds ==> r@ == "column index out of bounds"@,
            self@ is Decode ==> r@ == "error occurred while decoding a value"@,
            self@ is Database ==> r@ == "error returned from database"@,
            self@ is Protocol ==> r@ == "violation of the backend protocol"@,
    {
        match self {
            Error::RowNotFound => "no rows returned by a query that expected to return at least one row",
            Error::ColumnNotFound(_) => "no column found with the given name",
            Error::ColumnIndexOutOfBounds { .. } => "column index out of bounds",
            Error::Decode(_) => "error occurred while decoding a value",
            Error::Database(_) => "error returned from database",
            Error::Protocol(_) => "violation of the backend protocol",
        }
    }
}

} // verus!
