//! The wire-protocol SQL server backend: descriptors, values, the binary
//! argument encoder, rows, and the type-identifier resolution cache.

pub mod arguments;
pub mod array;
pub mod describe;
pub mod row;
pub mod text;
pub mod type_info;
pub mod types;
pub mod value;
pub mod wire;

use vstd::prelude::*;
use crate::database::{Database, HasValueRef, Postgres};

verus! {

impl Database for Postgres {
    type TypeInfo = type_info::PgTypeInfo;

    type Arguments = arguments::PgArguments;

    type Segment = u8;

    open spec fn segments(args: arguments::PgArguments) -> Seq<u8> {
        args.buffer@
    }

    open spec fn parameter_types(args: arguments::PgArguments) -> Seq<type_info::PgTypeInfoModel> {
        args.types@.map_values(|t: type_info::PgTypeInfo| t@)
    }
}

impl<'r> HasValueRef<'r> for Postgres {
    type ValueRef = value::PgValueRef<'r>;
}

} // verus!
