//! The embedded, linked SQL engine backend: its value model, the
//! statement lifecycle with the lazy row-materialization protocol, the
//! stepping worker's handshake, and the connection's statement cache.

pub mod arguments;
pub mod connection;
pub mod row;
pub mod statement;
pub mod type_info;
pub mod types;
pub mod value;
pub mod worker;

use vstd::prelude::*;
use crate::database::{Database, HasValueRef, Sqlite};

verus! {

impl Database for Sqlite {
    type TypeInfo = type_info::SqliteTypeInfo;

    type Arguments = arguments::SqliteArguments;

    type Segment = arguments::SqliteArgumentModel;

    open spec fn segments(args: arguments::SqliteArguments) -> Seq<arguments::SqliteArgumentModel> {
        args.values@.map_values(|v: arguments::SqliteArgumentValue| v@)
    }

    open spec fn parameter_types(args: arguments::SqliteArguments) -> Seq<
        type_info::SqliteTypeInfo,
    > {
        // the embedded engine sends no declared parameter-type list
        Seq::empty()
    }
}

impl<'r> HasValueRef<'r> for Sqlite {
    type ValueRef = value::SqliteValueRef<'r>;
}

} // verus!
