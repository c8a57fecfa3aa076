//! Rows of the wire-protocol backend: an ordered, fixed-length sequence
//! of columns for one result record, addressable by position or by
//! name. The name table is owned by the prepared statement, not the
//! row, and a row's column count and descriptors never change after
//! creation.

use vstd::prelude::*;
use vstd::pervasive::unreached;
use crate::database::Postgres;
use crate::decode::{Decode, DecodeError};
use crate::error::Error;
use crate::postgres::type_info::PgTypeInfo;
use crate::postgres::value::{PgValueFormat, PgValueModel, PgValueRef};

verus! {

/// One result column of a prepared statement.
pub struct PgColumn {
    /// The column name.
    pub name: String,
    /// The resolved type descriptor.
    pub type_info: PgTypeInfo,
    /// The table this column originates from, when any.
    pub relation_id: Option<u32>,
    /// The column's number within that table, when any.
    pub relation_attribute_no: Option<u16>,
}

/// A prepared statement's result shape: its columns and the name
/// lookup table shared by every row it produces.
pub struct PgStatement {
    /// The result columns, in order.
    pub columns: Vec<PgColumn>,
    /// Column name to zero-based position; a repeated name resolves to
    /// its last occurrence.
    pub column_names: Vec<(String, usize)>,
}

/// The position a name resolves to: the last table entry carrying it.
pub open spec fn spec_name_lookup(table: Seq<(String, usize)>, name: Seq<char>) -> Option<usize>
    decreases table.len(),
{
    if table.len() == 0 {
        None
    } else if table.last().0@ == name {
        Some(table.last().1)
    } else {
        spec_name_lookup(table.drop_last(), name)
    }
}

impl PgStatement {
    /// The name table points into the columns, at columns carrying the
    /// same name.
    pub open spec fn wf(self) -> bool {
        forall|k: int|
            0 <= k < self.column_names@.len() ==> {
                &&& (#[trigger] self.column_names@[k]).1 < self.columns@.len()
                &&& self.column_names@[k].0@ == self.columns@[self.column_names@[k].1 as int].name@
            }
    }

    /// The statement of a query with no result columns.
    pub fn empty() -> (r: Self)
        ensures
            r.wf(),
            r.columns@.len() == 0,
            r.column_names@.len() == 0,
    {
        PgStatement { columns: Vec::new(), column_names: Vec::new() }
    }
}

/// One result record of the wire-protocol backend.
pub struct PgRow {
    /// The raw value of each column; `None` is SQL NULL.
    pub data: Vec<Option<Vec<u8>>>,
    /// The encoding every value of this row arrived in.
    pub format: PgValueFormat,
    /// The statement that produced this row.
    pub statement: PgStatement,
}

impl PgRow {
    /// A row has one value per statement column.
    pub open spec fn wf(self) -> bool {
        &&& self.data@.len() == self.statement.columns@.len()
        &&& self.statement.wf()
    }

    /// The value model of one column of this row.
    pub open spec fn raw_value_model(self, index: int) -> PgValueModel {
        PgValueModel {
            bytes: match self.data@[index] {
                Some(b) => Some(b@),
                None => None,
            },
            type_info: self.statement.columns@[index].type_info@,
            format: self.format,
        }
    }

    /// The number of columns.
    pub fn len(&self) -> (r: usize)
        ensures
            r == self.data@.len(),
    {
        self.data.len()
    }

    /// The raw value at a zero-based position, or the out-of-bounds
    /// error exactly when the position is not below the column count.
    pub fn try_get_raw<'r>(&'r self, index: usize) -> (r: Result<PgValueRef<'r>, Error>)
        requires
            self.wf(),
        ensures
            index < self.data@.len() ==> (r matches Ok(v) && v@ == self.raw_value_model(
                index as int,
            )),
            index >= self.data@.len() ==> (r matches Err(e) && e@
                == (crate::error::ErrorModel::ColumnIndexOutOfBounds {
                index,
                len: self.data@.len() as usize,
            })),
    {
        let len = self.data.len();
        if index >= len {
            return Err(Error::ColumnIndexOutOfBounds { index, len });
        }
        let column = &self.statement.columns[index];
        let value = match &self.data[index] {
            Some(b) => Some(b),
            None => None,
        };
        Ok(PgValueRef { value, type_info: column.type_info.clone(), format: self.format })
    }

    /// The position of a named column, or the column-not-found error
    /// exactly when the name is absent from the statement's table. A
    /// repeated name resolves to its last occurrence.
    pub fn column_index(&self, name: &String) -> (r: Result<usize, Error>)
        requires
            self.wf(),
        ensures
            match spec_name_lookup(self.statement.column_names@, name@) {
                Some(ix) => r matches Ok(i) && i == ix && ix < self.data@.len(),
                None => r matches Err(e) && e@ == crate::error::ErrorModel::ColumnNotFound(name@),
            },
    {
        let table = &self.statement.column_names;
        let n = table.len();
        proof {
            assert(table@.subrange(0, n as int) =~= table@);
        }
        let mut k: usize = n;
        while k > 0
            invariant
                self.wf(),
                table == &self.statement.column_names,
                0 <= k <= n,
                n == table@.len(),
                spec_name_lookup(table@, name@) == spec_name_lookup(
                    table@.subrange(0, k as int),
                    name@,
                ),
            decreases k,
        {
            let ghost pre = table@.subrange(0, k as int);
            k = k - 1;
            if table[k].0 == *name {
                proof {
                    assert(pre.last() == table@[k as int]);
                    assert(spec_name_lookup(pre, name@) == Some(table@[k as int].1));
                }
                return Ok(table[k].1);
            }
            proof {
                assert(pre.last() == table@[k as int]);
                assert(pre.drop_last() =~= table@.subrange(0, k as int));
            }
        }
        proof {
            assert(table@.subrange(0, 0) =~= Seq::<(String, usize)>::empty());
        }
        Err(Error::ColumnNotFound(name.clone()))
    }

    /// The raw value of a named column.
    pub fn try_get_raw_named<'r>(&'r self, name: &String) -> (r: Result<PgValueRef<'r>, Error>)
        requires
            self.wf(),
        ensures
            match spec_name_lookup(self.statement.column_names@, name@) {
                Some(ix) => r matches Ok(v) && v@ == self.raw_value_model(ix as int),
                None => r matches Err(e) && e@ == crate::error::ErrorModel::ColumnNotFound(name@),
            },
    {
        match self.column_index(name) {
            Ok(ix) => self.try_get_raw(ix),
            Err(e) => Err(e),
        }
    }

    /// The typed value at a position: the descriptor is checked
    /// against the host type's `accepts` before decoding — a mismatch
    /// is a decode error, never a silent cast.
    pub fn try_get<'r, T: Decode<'r, Postgres>>(&'r self, index: usize) -> (r: Result<T, Error>)
        requires
            self.wf(),
        ensures
            index >= self.data@.len() ==> (r matches Err(e) && e@
                == (crate::error::ErrorModel::ColumnIndexOutOfBounds {
                index,
                len: self.data@.len() as usize,
            })),
            index < self.data@.len() ==> {
                let v = self.raw_value_model(index as int);
                if !T::accepts_spec(v.type_info) {
                    r matches Err(e) && e@ == crate::error::ErrorModel::Decode(
                        DecodeError::TypeMismatch,
                    )
                } else if T::decode_ok(v) {
                    r matches Ok(x) && T::decoded(v, x)
                } else {
                    r matches Err(e) && e@ == crate::error::ErrorModel::Decode(T::decode_err(v))
                }
            },
    {
        let value = match self.try_get_raw(index) {
            Ok(v) => v,
            Err(e) => {
                return Err(e);
            },
        };
        if !T::accepts(&value.type_info) {
            return Err(Error::Decode(DecodeError::TypeMismatch));
        }
        match T::decode(value) {
            Ok(x) => Ok(x),
            Err(e) => Err(Error::Decode(e)),
        }
    }

    /// The typed value at a position, for callers that have already
    /// validated the row's shape: the value must be present, accepted
    /// and decodable.
    pub fn get<'r, T: Decode<'r, Postgres>>(&'r self, index: usize) -> (r: T)
        requires
            self.wf(),
            index < self.data@.len(),
            T::accepts_spec(self.raw_value_model(index as int).type_info),
            T::decode_ok(self.raw_value_model(index as int)),
        ensures
            T::decoded(self.raw_value_model(index as int), r),
    {
        let value = match self.try_get_raw(index) {
            Ok(v) => v,
            Err(_) => {
                unreached()
            },
        };
        match T::decode(value) {
            Ok(x) => x,
            Err(_) => unreached(),
        }
    }
}

} // verus!
