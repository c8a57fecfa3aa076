//! Bind arguments for the embedded engine: typed values accumulated in
//! order, bound to a prepared statement before execution.

use vstd::prelude::*;

verus! {

/// Mathematical model of one bound argument.
pub enum SqliteArgumentModel {
    Null,
    Int(i32),
    Int64(i64),
    Double(u64),
    Text(Seq<char>),
    Blob(Seq<u8>),
}

/// One value bound to a statement parameter.
pub enum SqliteArgumentValue {
    /// SQL NULL.
    Null,
    /// A 32-bit integer.
    Int(i32),
    /// A 64-bit integer.
    Int64(i64),
    /// A 64-bit float, carried as its bit pattern.
    Double(u64),
    /// Text.
    Text(String),
    /// A binary blob.
    Blob(Vec<u8>),
}

impl View for SqliteArgumentValue {
    type V = SqliteArgumentModel;

    open spec fn view(&self) -> SqliteArgumentModel {
        match self {
            SqliteArgumentValue::Null => SqliteArgumentModel::Null,
            SqliteArgumentValue::Int(i) => SqliteArgumentModel::Int(*i),
            SqliteArgumentValue::Int64(i) => SqliteArgumentModel::Int64(*i),
            SqliteArgumentValue::Double(b) => SqliteArgumentModel::Double(*b),
            SqliteArgumentValue::Text(s) => SqliteArgumentModel::Text(s@),
            SqliteArgumentValue::Blob(b) => SqliteArgumentModel::Blob(b@),
        }
    }
}

impl Clone for SqliteArgumentValue {
    fn clone(&self) -> (r: Self)
        ensures
            r@ == self@,
    {
        match self {
            SqliteArgumentValue::Null => SqliteArgumentValue::Null,
            SqliteArgumentValue::Int(i) => SqliteArgumentValue::Int(*i),
            SqliteArgumentValue::Int64(i) => SqliteArgumentValue::Int64(*i),
            SqliteArgumentValue::Double(b) => SqliteArgumentValue::Double(*b),
            SqliteArgumentValue::Text(s) => SqliteArgumentValue::Text(s.clone()),
            SqliteArgumentValue::Blob(b) => SqliteArgumentValue::Blob(b.clone()),
        }
    }
}

/// Accumulated bind parameters for one embedded-engine execution.
pub struct SqliteArguments {
    /// The bound values, in parameter order.
    pub values: Vec<SqliteArgumentValue>,
}

impl SqliteArguments {
    /// An empty argument list.
    pub fn new() -> (r: Self)
        ensures
            r.values@.len() == 0,
    {
        SqliteArguments { values: Vec::new() }
    }
}

} // verus!
