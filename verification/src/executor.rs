//! The uniform streaming query-execution contract.
//!
//! `fetch_many` is the foundational primitive of every backend: it
//! produces a sequence of items, each either an affected-row count or a
//! row, interleaved in exact execution order. The other operations are
//! derived here by filtering and folding that sequence, for any row
//! type, exactly as their spec functions state.

use vstd::prelude::*;
use crate::database::Database;
use crate::error::Error;

verus! {

/// One item produced by `fetch_many`: either the number of rows
/// affected by a statement, or one result row.
pub enum FetchStep<R> {
    /// A statement completed, affecting this many rows.
    Count(u64),
    /// One result row.
    Row(R),
}

/// A type that may be executed against a database connection: a query
/// string plus optionally-consumable pre-encoded arguments.
pub trait Execute<DB: Database>: Sized {
    /// The query string to run.
    spec fn query_spec(&self) -> Seq<char>;

    /// The pre-encoded arguments still held, if any.
    spec fn arguments_spec(&self) -> Option<DB::Arguments>;

    /// Returns the query string.
    fn query(&self) -> (r: &str)
        ensures
            r@ == self.query_spec(),
    ;

    /// Takes the arguments out; they can be taken at most once per
    /// execution attempt.
    fn take_arguments(&mut self) -> (r: Option<DB::Arguments>)
        ensures
            r == old(self).arguments_spec(),
            final(self).arguments_spec() is None,
            final(self).query_spec() == old(self).query_spec(),
    ;
}

/// A bare query string executes with no arguments.
impl<'q, DB: Database> Execute<DB> for &'q str {
    open spec fn query_spec(&self) -> Seq<char> {
        (*self)@
    }

    open spec fn arguments_spec(&self) -> Option<DB::Arguments> {
        None
    }

    fn query(&self) -> (r: &str) {
        self
    }

    fn take_arguments(&mut self) -> (r: Option<DB::Arguments>) {
        None
    }
}

/// A query string together with encoded bind arguments.
pub struct Query<DB: Database> {
    pub sql: String,
    pub arguments: Option<DB::Arguments>,
}

impl<DB: Database> Execute<DB> for Query<DB> {
    open spec fn query_spec(&self) -> Seq<char> {
        self.sql@
    }

    open spec fn arguments_spec(&self) -> Option<DB::Arguments> {
        self.arguments
    }

    fn query(&self) -> (r: &str) {
        self.sql.as_str()
    }

    fn take_arguments(&mut self) -> (r: Option<DB::Arguments>) {
        self.arguments.take()
    }
}

/// The total of the affected-row counts in `items`, up to the first
/// error; an error aborts the fold with that error.
pub open spec fn spec_execute<R>(items: Seq<Result<FetchStep<R>, Error>>) -> Result<int, Error>
    decreases items.len(),
{
    if items.len() == 0 {
        Ok(0)
    } else {
        match items[0] {
            Err(e) => Err(e),
            Ok(FetchStep::Row(_)) => spec_execute(items.drop_first()),
            Ok(FetchStep::Count(n)) => match spec_execute(items.drop_first()) {
                Ok(t) => Ok(n + t),
                Err(e) => Err(e),
            },
        }
    }
}

/// The affected-row count of each statement, rows dropped, errors kept
/// in place.
pub open spec fn spec_execute_many<R>(items: Seq<Result<FetchStep<R>, Error>>) -> Seq<
    Result<u64, Error>,
>
    decreases items.len(),
{
    if items.len() == 0 {
        Seq::empty()
    } else {
        let rest = spec_execute_many(items.drop_first());
        match items[0] {
            Err(e) => seq![Err(e)] + rest,
            Ok(FetchStep::Count(n)) => seq![Ok(n)] + rest,
            Ok(FetchStep::Row(_)) => rest,
        }
    }
}

/// The rows only, counts dropped, errors kept in place.
pub open spec fn spec_fetch<R>(items: Seq<Result<FetchStep<R>, Error>>) -> Seq<Result<R, Error>>
    decreases items.len(),
{
    if items.len() == 0 {
        Seq::empty()
    } else {
        let rest = spec_fetch(items.drop_first());
        match items[0] {
            Err(e) => seq![Err(e)] + rest,
            Ok(FetchStep::Row(r)) => seq![Ok(r)] + rest,
            Ok(FetchStep::Count(_)) => rest,
        }
    }
}

/// All rows collected, aborted by the first error.
pub open spec fn spec_fetch_all<R>(items: Seq<Result<FetchStep<R>, Error>>) -> Result<
    Seq<R>,
    Error,
>
    decreases items.len(),
{
    if items.len() == 0 {
        Ok(Seq::empty())
    } else {
        match items[0] {
            Err(e) => Err(e),
            Ok(FetchStep::Row(r)) => match spec_fetch_all(items.drop_first()) {
                Ok(rest) => Ok(seq![r] + rest),
                Err(e) => Err(e),
            },
            Ok(FetchStep::Count(_)) => spec_fetch_all(items.drop_first()),
        }
    }
}

/// The first row if any, `None` when the items run out first, or the
/// first error met before any row.
pub open spec fn spec_fetch_optional<R>(items: Seq<Result<FetchStep<R>, Error>>) -> Result<
    Option<R>,
    Error,
>
    decreases items.len(),
{
    if items.len() == 0 {
        Ok(None)
    } else {
        match items[0] {
            Err(e) => Err(e),
            Ok(FetchStep::Row(r)) => Ok(Some(r)),
            Ok(FetchStep::Count(_)) => spec_fetch_optional(items.drop_first()),
        }
    }
}

/// Executes the stream for its total affected-row count: counts are
/// summed, rows dropped, and the first error aborts the fold.
///
/// An empty stream — an empty query string produces one — yields zero
/// affected rows and no error.
pub fn execute_total<R>(items: Vec<Result<FetchStep<R>, Error>>) -> (r: Result<u64, Error>)
    requires
        spec_execute(items@) matches Ok(t) ==> t <= u64::MAX,
    ensures
        match spec_execute(items@) {
            Ok(t) => r matches Ok(x) && x == t,
            Err(e) => r matches Err(e2) && e2 == e,
        },
    decreases items@.len(),
{
    let ghost orig = items@;
    let mut items = items;
    if items.len() == 0 {
        return Ok(0);
    }
    let head = items.remove(0);
    proof {
        assert(items@ =~= orig.drop_first());
    }
    match head {
        Err(e) => Err(e),
        Ok(FetchStep::Row(_)) => execute_total(items),
        Ok(FetchStep::Count(n)) => match execute_total(items) {
            Ok(t) => Ok(n + t),
            Err(e) => Err(e),
        },
    }
}

/// Executes the stream for the affected-row count of each statement:
/// counts are kept in order, rows dropped, errors passed through.
pub fn execute_many_counts<R>(items: Vec<Result<FetchStep<R>, Error>>) -> (r: Vec<
    Result<u64, Error>,
>)
    ensures
        r@ == spec_execute_many(items@),
    decreases items@.len(),
{
    let ghost orig = items@;
    let mut items = items;
    if items.len() == 0 {
        return Vec::new();
    }
    let head = items.remove(0);
    proof {
        assert(items@ =~= orig.drop_first());
    }
    let mut rest = execute_many_counts(items);
    match head {
        Err(e) => {
            rest.insert(0, Err(e));
            assert(rest@ =~= spec_execute_many(orig));
            rest
        },
        Ok(FetchStep::Count(n)) => {
            rest.insert(0, Ok(n));
            assert(rest@ =~= spec_execute_many(orig));
            rest
        },
        Ok(FetchStep::Row(_)) => rest,
    }
}

/// Filters the stream down to its rows, in order, errors passed
/// through.
pub fn fetch_rows<R>(items: Vec<Result<FetchStep<R>, Error>>) -> (r: Vec<Result<R, Error>>)
    ensures
        r@ == spec_fetch(items@),
    decreases items@.len(),
{
    let ghost orig = items@;
    let mut items = items;
    if items.len() == 0 {
        return Vec::new();
    }
    let head = items.remove(0);
    proof {
        assert(items@ =~= orig.drop_first());
    }
    let mut rest = fetch_rows(items);
    match head {
        Err(e) => {
            rest.insert(0, Err(e));
            assert(rest@ =~= spec_fetch(orig));
            rest
        },
        Ok(FetchStep::Row(row)) => {
            rest.insert(0, Ok(row));
            assert(rest@ =~= spec_fetch(orig));
            rest
        },
        Ok(FetchStep::Count(_)) => rest,
    }
}

/// Collects every row; the first error aborts the collection.
pub fn fetch_all<R>(items: Vec<Result<FetchStep<R>, Error>>) -> (r: Result<Vec<R>, Error>)
    ensures
        match spec_fetch_all(items@) {
            Ok(rows) => r matches Ok(v) && v@ == rows,
            Err(e) => r matches Err(e2) && e2 == e,
        },
    decreases items@.len(),
{
    let ghost orig = items@;
    let mut items = items;
    if items.len() == 0 {
        return Ok(Vec::new());
    }
    let head = items.remove(0);
    proof {
        assert(items@ =~= orig.drop_first());
    }
    match head {
        Err(e) => Err(e),
        Ok(FetchStep::Row(row)) => match fetch_all(items) {
            Ok(mut rest) => {
                rest.insert(0, row);
                Ok(rest)
            },
            Err(e) => Err(e),
        },
        Ok(FetchStep::Count(_)) => fetch_all(items),
    }
}

/// Returns at most one row: the first row when there is one, `None`
/// when the stream ends without one, or the first error met before any
/// row.
pub fn fetch_optional<R>(items: Vec<Result<FetchStep<R>, Error>>) -> (r: Result<Option<R>, Error>)
    ensures
        match spec_fetch_optional(items@) {
            Ok(opt) => r matches Ok(o2) && o2 == opt,
            Err(e) => r matches Err(e2) && e2 == e,
        },
    decreases items@.len(),
{
    let ghost orig = items@;
    let mut items = items;
    if items.len() == 0 {
        return Ok(None);
    }
    let head = items.remove(0);
    proof {
        assert(items@ =~= orig.drop_first());
    }
    match head {
        Err(e) => Err(e),
        Ok(FetchStep::Row(row)) => Ok(Some(row)),
        Ok(FetchStep::Count(_)) => fetch_optional(items),
    }
}

/// Returns exactly one row: the first row when there is one, the
/// row-not-found error when the stream ends without one, or the first
/// error met before any row.
pub fn fetch_one<R>(items: Vec<Result<FetchStep<R>, Error>>) -> (r: Result<R, Error>)
    ensures
        match spec_fetch_optional(items@) {
            Ok(Some(row)) => r matches Ok(x) && x == row,
            Ok(None) => r matches Err(e) && e@ is RowNotFound,
            Err(e) => r matches Err(e2) && e2 == e,
        },
{
    match fetch_optional(items) {
        Ok(Some(row)) => Ok(row),
        Ok(None) => Err(Error::RowNotFound),
        Err(e) => Err(e),
    }
}

} // verus!
