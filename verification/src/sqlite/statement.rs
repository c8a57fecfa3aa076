//! The embedded engine's prepared-statement model: per-handle state,
//! the materialization slots of yielded rows, and the stepping driver.
//!
//! A query string may contain several `;`-separated statements; each
//! gets its own native handle, compiled by the engine. The model keeps,
//! per handle, the column-name table, the bound parameters, the
//! statement state, the values in the live native buffers, and the
//! materialization slots of the rows it has yielded.

use vstd::prelude::*;
use vstd::pervasive::VecAdditionalExecFns;
use vstd::string::StringSliceAdditionalSpecFns;
use crate::database::Sqlite;
use crate::decode::{Decode, DecodeError};
use crate::sqlite::value::spec_kind;
use crate::sqlite::type_info::SqliteTypeInfo;
use crate::error::{DatabaseError, Error};
use crate::sqlite::arguments::{SqliteArgumentValue, SqliteArguments};
use crate::sqlite::row::SqliteRow;
use crate::sqlite::value::{SqliteValue, SqliteValueModel, SqliteValueRef};

verus! {

/// Lifecycle state of one statement handle.
#[derive(Clone, Copy, Debug, PartialEq, Eq, Structural)]
pub enum SqliteStmtState {
    /// Just prepared or reset.
    Idle,
    /// A record is ready in the live statement buffers.
    RowAvailable,
    /// No more records; the final affected-row count is available.
    Done(u64),
}

/// The materialization slot of one yielded row: initially empty, filled
/// with owned copies when the engine must advance past a still-alive
/// row, released when the row is dropped first.
pub struct RowSlot {
    /// The row was dropped; the engine may advance with no copy.
    pub dropped: bool,
    /// Owned copies of the row's values, once inflated.
    pub values: Option<Vec<SqliteValue>>,
    /// The values at the row's creation.
    pub snapshot: Ghost<Seq<SqliteValueModel>>,
}

/// What the native engine reports for one compiled statement.
pub struct PreparedStatementInfo {
    /// The column name of each result column, by position.
    pub column_names: Vec<String>,
    /// The number of bind parameters the statement declares.
    pub parameter_count: usize,
}

/// The model of one native statement handle.
pub struct StatementHandle {
    /// The column name of each result column, by position.
    pub column_names: Vec<String>,
    /// The number of bind parameters the statement declares.
    pub parameter_count: usize,
    /// The currently bound parameters.
    pub bindings: Vec<SqliteArgumentValue>,
    /// Lifecycle state.
    pub state: SqliteStmtState,
    /// The values in the live native row buffers.
    pub current: Vec<SqliteValue>,
    /// One materialization slot per row yielded so far.
    pub slots: Vec<RowSlot>,
    /// The slot of the last yielded row — the engine's weak reference.
    pub last_row: Option<usize>,
}

impl StatementHandle {
    /// The live native buffers, as value models.
    pub open spec fn current_model(self) -> Seq<SqliteValueModel> {
        self.current@.map_values(|v: SqliteValue| v@)
    }

    /// The invariant of one slot: while its row is alive, either it is
    /// inflated and its owned copies equal the row's snapshot, or it is
    /// the last yielded row and the statement has not been advanced
    /// since — the live buffers still hold the snapshot.
    pub open spec fn slot_ok(self, i: int) -> bool {
        !self.slots@[i].dropped ==> match self.slots@[i].values {
            Some(vs) => vs@.map_values(|v: SqliteValue| v@) == self.slots@[i].snapshot@,
            None => {
                &&& (self.last_row matches Some(l) && l as int == i)
                &&& self.state is RowAvailable
                &&& self.current_model() == self.slots@[i].snapshot@
            },
        }
    }

    /// Well-formedness: every yielded row still reads its own values.
    pub open spec fn wf(self) -> bool {
        &&& (self.last_row matches Some(i) ==> (i as int) < self.slots@.len())
        &&& (forall|i: int| 0 <= i < self.slots@.len() ==> self.slot_ok(i))
    }

    /// Slots are preserved from `a` to `b`: none lost, none newly
    /// dropped, snapshots untouched. Every row valid for `a` is then
    /// valid for `b`.
    pub open spec fn slots_preserved(a: StatementHandle, b: StatementHandle) -> bool {
        &&& b.slots@.len() >= a.slots@.len()
        &&& (forall|i: int|
            0 <= i < a.slots@.len() ==> {
                &&& (#[trigger] b.slots@[i]).dropped == a.slots@[i].dropped
                &&& b.slots@[i].snapshot@ == a.slots@[i].snapshot@
            })
    }

    /// The bookkeeping fields untouched by stepping.
    pub open spec fn same_statement(a: StatementHandle, b: StatementHandle) -> bool {
        &&& b.column_names@ == a.column_names@
        &&& b.parameter_count == a.parameter_count
        &&& b.bindings@ == a.bindings@
    }

    /// Slot preservation composes across successive engine steps.
    pub proof fn lemma_slots_preserved_trans(a: StatementHandle, b: StatementHandle, c: StatementHandle)
        requires
            Self::slots_preserved(a, b),
            Self::slots_preserved(b, c),
        ensures
            Self::slots_preserved(a, c),
    {
        assert forall|i: int| 0 <= i < a.slots@.len() implies {
            &&& (#[trigger] c.slots@[i]).dropped == a.slots@[i].dropped
            &&& c.slots@[i].snapshot@ == a.slots@[i].snapshot@
        } by {
            assert(b.slots@[i].dropped == a.slots@[i].dropped);
            assert(c.slots@[i].dropped == b.slots@[i].dropped);
        }
    }

    /// A row valid for a handle stays valid across any operation that
    /// preserves the slots — the heart of row isolation: later steps
    /// never invalidate an earlier row.
    pub proof fn lemma_row_stays_valid(row: SqliteRow, a: StatementHandle, b: StatementHandle)
        requires
            row.valid_for(a),
            Self::slots_preserved(a, b),
        ensures
            row.valid_for(b),
    {
        assert(b.slots@[row.slot as int].dropped == a.slots@[row.slot as int].dropped);
    }

    /// Row isolation under reuse, across whole executions: a row
    /// yielded by an earlier execution of a statement and still alive
    /// stays valid — and so keeps reading its creation-time values
    /// through [`StatementHandle::row_value`] — after the statement is
    /// reset, rebound and driven again, since every one of those
    /// operations preserves the materialization slots.
    pub proof fn lemma_row_isolation_across_executions(
        row: SqliteRow,
        k: int,
        a: Statement,
        b: Statement,
    )
        requires
            0 <= k < a.handles@.len(),
            row.valid_for(a.handles@[k]),
            b.handles@.len() == a.handles@.len(),
            forall|l: int|
                0 <= l < a.handles@.len() ==> Self::slots_preserved(
                    a.handles@[l],
                    #[trigger] b.handles@[l],
                ),
        ensures
            row.valid_for(b.handles@[k]),
    {
        Self::lemma_row_stays_valid(row, a.handles@[k], b.handles@[k]);
    }

    /// A fresh handle for one compiled statement.
    pub fn from_prepared(info: PreparedStatementInfo) -> (r: Self)
        ensures
            r.wf(),
            r.state is Idle,
            r.column_names@ == info.column_names@,
            r.parameter_count == info.parameter_count,
            r.bindings@.len() == 0,
            r.slots@.len() == 0,
            r.last_row is None,
    {
        StatementHandle {
            column_names: info.column_names,
            parameter_count: info.parameter_count,
            bindings: Vec::new(),
            state: SqliteStmtState::Idle,
            current: Vec::new(),
            slots: Vec::new(),
            last_row: None,
        }
    }

    /// The number of result columns.
    pub fn column_count(&self) -> (r: usize)
        ensures
            r == self.column_names@.len(),
    {
        self.column_names.len()
    }

    /// The name of one result column.
    pub fn column_name(&self, index: usize) -> (r: &String)
        requires
            index < self.column_names@.len(),
        ensures
            r@ == self.column_names@[index as int]@,
    {
        &self.column_names[index]
    }

    /// The number of bind parameters.
    pub fn bind_parameter_count(&self) -> (r: usize)
        ensures
            r == self.parameter_count,
    {
        self.parameter_count
    }

    /// Binds the accumulated arguments to this statement. The number of
    /// encoded values must match the statement's declared parameter
    /// count, or execution fails.
    pub fn bind(&mut self, args: &SqliteArguments) -> (r: Result<(), Error>)
        requires
            old(self).wf(),
        ensures
            final(self).wf(),
            r is Ok <==> args.values@.len() == old(self).parameter_count,
            r is Ok ==> final(self).bindings@.map_values(|v: SqliteArgumentValue| v@)
                == args.values@.map_values(|v: SqliteArgumentValue| v@),
            r is Err ==> final(self).bindings@ == old(self).bindings@,
            r matches Err(e) ==> e@ is Protocol,
            final(self).column_names@ == old(self).column_names@,
            final(self).parameter_count == old(self).parameter_count,
            final(self).state == old(self).state,
            final(self).current@ == old(self).current@,
            final(self).slots@ == old(self).slots@,
            final(self).last_row == old(self).last_row,
    {
        if args.values.len() != self.parameter_count {
            return Err(
                Error::Protocol("wrong number of bind parameters for the prepared statement".to_owned()),
            );
        }
        let mut copied: Vec<SqliteArgumentValue> = Vec::new();
        let n = args.values.len();
        let mut i: usize = 0;
        while i < n
            invariant
                0 <= i <= n,
                n == args.values@.len(),
                copied@.len() == i,
                forall|j: int| 0 <= j < i ==> (#[trigger] copied@[j])@ == args.values@[j]@,
            decreases n - i,
        {
            copied.push(args.values[i].clone());
            i = i + 1;
        }
        self.bindings = copied;
        proof {
            assert(self.bindings@.map_values(|v: SqliteArgumentValue| v@)
                =~= args.values@.map_values(|v: SqliteArgumentValue| v@));
            assert forall|k: int| 0 <= k < self.slots@.len() implies self.slot_ok(k) by {
                assert(old(self).slot_ok(k));
            }
        }
        Ok(())
    }

    /// Attempts to upgrade the engine's weak reference to the last
    /// yielded row. When the row has been dropped the engine proceeds
    /// with no copy — the common, zero-cost path; when it is still
    /// alive its slot is inflated: every column's current value is
    /// copied to owned storage before the cursor may advance.
    pub fn inflate_if_needed(&mut self)
        requires
            old(self).wf(),
        ensures
            final(self).wf(),
            final(self).last_row is None,
            Self::slots_preserved(*old(self), *final(self)),
            final(self).slots@.len() == old(self).slots@.len(),
            forall|i: int|
                0 <= i < final(self).slots@.len() && !final(self).slots@[i].dropped ==> ((
                #[trigger] final(self).slots@[i].values) matches Some(vs) && vs@.map_values(
                    |v: SqliteValue| v@,
                ) == final(self).slots@[i].snapshot@),
            Self::same_statement(*old(self), *final(self)),
            final(self).state == old(self).state,
            final(self).current@ == old(self).current@,
    {
        match self.last_row {
            None => {
                proof {
                    assert forall|i: int|
                        0 <= i < self.slots@.len() && !self.slots@[i].dropped implies ((
                    #[trigger] self.slots@[i].values) matches Some(vs) && vs@.map_values(
                        |v: SqliteValue| v@,
                    ) == self.slots@[i].snapshot@) by {
                        assert(old(self).slot_ok(i));
                    }
                }
            },
            Some(i) => {
                assert((i as int) < self.slots@.len());
                let needs_copy = !self.slots[i].dropped && self.slots[i].values.is_none();
                if needs_copy {
                    let ghost snap = self.slots@[i as int].snapshot@;
                    let copies = clone_values(&self.current);
                    proof {
                        assert(old(self).slot_ok(i as int));
                        assert(copies@.map_values(|v: SqliteValue| v@) =~= old(
                            self,
                        ).current_model());
                        assert(copies@.map_values(|v: SqliteValue| v@) == snap);
                    }
                    let fresh = RowSlot { dropped: false, values: Some(copies), snapshot: Ghost(snap) };
                    self.slots.set(i, fresh);
                }
                self.last_row = None;
                proof {
                    assert forall|j: int|
                        0 <= j < self.slots@.len() && !self.slots@[j].dropped implies ((
                    #[trigger] self.slots@[j].values) matches Some(vs) && vs@.map_values(
                        |v: SqliteValue| v@,
                    ) == self.slots@[j].snapshot@) by {
                        assert(old(self).slot_ok(j));
                        if j == i as int {
                            assert(!needs_copy ==> old(self).slots@[j].values is Some);
                        } else {
                            assert(self.slots@[j] == old(self).slots@[j]);
                            if old(self).slots@[j].values is None {
                                assert(old(self).last_row matches Some(l) && l as int == j);
                                assert(false);
                            }
                        }
                    }
                    assert forall|j: int| 0 <= j < self.slots@.len() implies self.slot_ok(j) by {
                        assert(old(self).slot_ok(j));
                        if j != i as int {
                            assert(self.slots@[j] == old(self).slots@[j]);
                            if !self.slots@[j].dropped && old(self).slots@[j].values is None {
                                assert(old(self).last_row matches Some(l) && l as int == j);
                                assert(false);
                            }
                        }
                    }
                }
            },
        }
    }

    /// The cursor advanced to a new record: the live buffers now hold
    /// `values`. The engine must have upgraded-or-released the last
    /// row first.
    pub fn step_row(&mut self, values: Vec<SqliteValue>)
        requires
            old(self).wf(),
            old(self).last_row is None,
        ensures
            final(self).wf(),
            final(self).state is RowAvailable,
            final(self).current@ == values@,
            final(self).last_row is None,
            final(self).slots@ == old(self).slots@,
            Self::slots_preserved(*old(self), *final(self)),
            Self::same_statement(*old(self), *final(self)),
    {
        self.current = values;
        self.state = SqliteStmtState::RowAvailable;
        proof {
            assert forall|i: int| 0 <= i < self.slots@.len() implies self.slot_ok(i) by {
                assert(old(self).slot_ok(i));
            }
        }
    }

    /// The cursor reached the end: the statement is done and the final
    /// affected-row count is available.
    pub fn step_done(&mut self, changes: u64)
        requires
            old(self).wf(),
            old(self).last_row is None,
        ensures
            final(self).wf(),
            final(self).state == SqliteStmtState::Done(changes),
            final(self).slots@ == old(self).slots@,
            final(self).current@ == old(self).current@,
            final(self).last_row is None,
            Self::slots_preserved(*old(self), *final(self)),
            Self::same_statement(*old(self), *final(self)),
    {
        self.state = SqliteStmtState::Done(changes);
        proof {
            assert forall|i: int| 0 <= i < self.slots@.len() implies self.slot_ok(i) by {
                assert(old(self).slot_ok(i));
            }
        }
    }

    /// Yields the current record as a row referencing the live
    /// statement buffers — zero copy — and keeps a weak reference to
    /// its fresh materialization slot.
    pub fn yield_row(&mut self) -> (row: SqliteRow)
        requires
            old(self).wf(),
            old(self).state is RowAvailable,
            old(self).last_row is None,
        ensures
            final(self).wf(),
            row.valid_for(*final(self)),
            row.snapshot@ == old(self).current_model(),
            row.slot == old(self).slots@.len(),
            row.size == old(self).current@.len(),
            final(self).slots@.len() == old(self).slots@.len() + 1,
            Self::slots_preserved(*old(self), *final(self)),
            Self::same_statement(*old(self), *final(self)),
            final(self).state == old(self).state,
            final(self).current@ == old(self).current@,
            final(self).last_row == Some(row.slot),
    {
        let idx = self.slots.len();
        let ghost snap = self.current_model();
        self.slots.push(RowSlot { dropped: false, values: None, snapshot: Ghost(snap) });
        self.last_row = Some(idx);
        let row = SqliteRow { slot: idx, size: self.current.len(), snapshot: Ghost(snap) };
        proof {
            assert forall|j: int| 0 <= j < self.slots@.len() implies self.slot_ok(j) by {
                if j < self.slots@.len() - 1 {
                    assert(old(self).slot_ok(j));
                }
            }
        }
        row
    }

    /// Reads one column of a yielded row. The read goes to the row's
    /// inflated slot when it has one, else to the live statement
    /// buffers; either way the result is exactly the value the row
    /// held when it was yielded.
    pub fn row_value<'a>(&'a self, row: &SqliteRow, index: usize) -> (r: SqliteValueRef<'a>)
        requires
            self.wf(),
            row.valid_for(*self),
            index < row.size,
        ensures
            r@ == row.snapshot@[index as int],
    {
        assert(self.slot_ok(row.slot as int));
        match &self.slots[row.slot].values {
            Some(vs) => {
                assert(vs@.map_values(|v: SqliteValue| v@) == row.snapshot@);
                SqliteValueRef::value(&vs[index])
            },
            None => {
                assert(self.current_model() == row.snapshot@);
                SqliteValueRef::value(&self.current[index])
            },
        }
    }

    /// The typed value of one column of a yielded row: the value's
    /// storage class is checked against the host type's `accepts`
    /// before decoding — a mismatch is a decode error, never a silent
    /// cast.
    pub fn row_try_get<'a, T: Decode<'a, Sqlite>>(
        &'a self,
        row: &SqliteRow,
        index: usize,
    ) -> (r: Result<T, crate::error::Error>)
        requires
            self.wf(),
            row.valid_for(*self),
            index < row.size,
        ensures
            ({
                let v = row.snapshot@[index as int];
                if !T::accepts_spec(SqliteTypeInfo { kind: spec_kind(v) }) {
                    r matches Err(e) && e@ == crate::error::ErrorModel::Decode(
                        DecodeError::TypeMismatch,
                    )
                } else if T::decode_ok(v) {
                    r matches Ok(x) && T::decoded(v, x)
                } else {
                    r matches Err(e) && e@ == crate::error::ErrorModel::Decode(T::decode_err(v))
                }
            }),
    {
        let value = self.row_value(row, index);
        let info = value.type_info();
        if !T::accepts(&info) {
            return Err(crate::error::Error::Decode(DecodeError::TypeMismatch));
        }
        match T::decode(value) {
            Ok(x) => Ok(x),
            Err(e) => Err(crate::error::Error::Decode(e)),
        }
    }

    /// The typed value of one column, for callers that have already
    /// validated the row's shape: the value must be accepted and
    /// decodable.
    pub fn row_get<'a, T: Decode<'a, Sqlite>>(&'a self, row: &SqliteRow, index: usize) -> (r: T)
        requires
            self.wf(),
            row.valid_for(*self),
            index < row.size,
            T::accepts_spec(SqliteTypeInfo { kind: spec_kind(row.snapshot@[index as int]) }),
            T::decode_ok(row.snapshot@[index as int]),
        ensures
            T::decoded(row.snapshot@[index as int], r),
    {
        let value = self.row_value(row, index);
        match T::decode(value) {
            Ok(x) => x,
            Err(_) => vstd::pervasive::unreached(),
        }
    }

    /// Releases a row: its slot is marked dropped and any owned copies
    /// are freed, so the engine may advance with no copy.
    pub fn drop_row(&mut self, row: SqliteRow)
        requires
            old(self).wf(),
            row.valid_for(*old(self)),
        ensures
            final(self).wf(),
            final(self).slots@.len() == old(self).slots@.len(),
            final(self).slots@[row.slot as int].dropped,
            forall|i: int|
                0 <= i < old(self).slots@.len() && i != row.slot ==> final(self).slots@[i] == old(
                    self,
                ).slots@[i],
            Self::same_statement(*old(self), *final(self)),
            final(self).state == old(self).state,
            final(self).current@ == old(self).current@,
            final(self).last_row == old(self).last_row,
    {
        let ghost snap = self.slots@[row.slot as int].snapshot@;
        self.slots.set(row.slot, RowSlot { dropped: true, values: None, snapshot: Ghost(snap) });
        proof {
            assert forall|j: int| 0 <= j < self.slots@.len() implies self.slot_ok(j) by {
                if j != row.slot {
                    assert(old(self).slot_ok(j));
                }
            }
        }
    }

    /// Resets the statement for reuse: inflates any row still
    /// referencing the previous execution, returns the state to idle,
    /// and clears the parameter bindings.
    pub fn reset(&mut self)
        requires
            old(self).wf(),
        ensures
            final(self).wf(),
            final(self).state is Idle,
            final(self).bindings@.len() == 0,
            final(self).last_row is None,
            Self::slots_preserved(*old(self), *final(self)),
            final(self).slots@.len() == old(self).slots@.len(),
            forall|i: int|
                0 <= i < final(self).slots@.len() && !final(self).slots@[i].dropped ==> ((
                #[trigger] final(self).slots@[i].values) matches Some(vs) && vs@.map_values(
                    |v: SqliteValue| v@,
                ) == final(self).slots@[i].snapshot@),
            final(self).column_names@ == old(self).column_names@,
            final(self).parameter_count == old(self).parameter_count,
    {
        self.inflate_if_needed();
        let ghost mid = *self;
        self.state = SqliteStmtState::Idle;
        self.bindings = Vec::new();
        proof {
            assert forall|j: int| 0 <= j < self.slots@.len() implies self.slot_ok(j) by {
                assert(mid.slot_ok(j));
            }
        }
    }
}

/// Owned copies of a value vector, model-equal to the source.
fn clone_values(vs: &Vec<SqliteValue>) -> (r: Vec<SqliteValue>)
    ensures
        r@.len() == vs@.len(),
        forall|j: int| 0 <= j < vs@.len() ==> (#[trigger] r@[j])@ == vs@[j]@,
{
    let n = vs.len();
    let mut r: Vec<SqliteValue> = Vec::new();
    let mut i: usize = 0;
    while i < n
        invariant
            0 <= i <= n,
            n == vs@.len(),
            r@.len() == i,
            forall|j: int| 0 <= j < i ==> (#[trigger] r@[j])@ == vs@[j]@,
        decreases n - i,
    {
        r.push(vs[i].clone());
        i = i + 1;
    }
    r
}

/// A prepared statement: one handle per `;`-separated statement in the
/// query string.
pub struct Statement {
    /// The compiled statement handles, in source order.
    pub handles: Vec<StatementHandle>,
}

/// A freshly prepared statement, exactly as the engine compiled it:
/// one idle handle per compiled statement, nothing bound, no rows yet.
pub open spec fn prepared_matches(s: Statement, infos: Seq<PreparedStatementInfo>) -> bool {
    &&& s.wf()
    &&& s.handles@.len() == infos.len()
    &&& (forall|i: int|
        0 <= i < infos.len() ==> {
            &&& (#[trigger] s.handles@[i]).state is Idle
            &&& s.handles@[i].column_names@ == infos[i].column_names@
            &&& s.handles@[i].parameter_count == infos[i].parameter_count
            &&& s.handles@[i].slots@.len() == 0
            &&& s.handles@[i].last_row is None
            &&& s.handles@[i].bindings@.len() == 0
        })
}

impl Statement {
    /// Every handle is well-formed.
    pub open spec fn wf(self) -> bool {
        forall|i: int| 0 <= i < self.handles@.len() ==> (#[trigger] self.handles@[i]).wf()
    }

    /// Prepares a query string from what the native engine compiled it
    /// to. Statement text longer than the engine's limit is a protocol
    /// error — deliberately measured on the text as given, untrimmed:
    /// the check is conservative, and what surrounds the statements is
    /// the engine's to interpret. A compile failure surfaces the
    /// engine's message and extended result code verbatim.
    pub fn prepare(query: &str, compiled: Result<Vec<PreparedStatementInfo>, DatabaseError>) -> (r:
        Result<Statement, Error>)
        requires
            query.spec_bytes().len() <= usize::MAX,
        ensures
            query.spec_bytes().len() > 0x7fff_ffff ==> (r matches Err(e) && e@ is Protocol),
            query.spec_bytes().len() <= 0x7fff_ffff ==> match compiled {
                Err(e) => r matches Err(e2) && e2@ == crate::error::ErrorModel::Database(e@),
                Ok(infos) => r matches Ok(s) && prepared_matches(s, infos@),
            },
    {
        // the native interface takes the query length as a signed
        // 32-bit value
        if query.len() > 0x7fff_ffffusize {
            return Err(Error::Protocol("query string is too long for the embedded engine".to_owned()));
        }
        match compiled {
            Err(e) => Err(Error::Database(e)),
            Ok(infos) => {
                let mut infos = infos;
                let ghost orig = infos@;
                let mut handles: Vec<StatementHandle> = Vec::new();
                while infos.len() > 0
                    invariant
                        handles@.len() + infos@.len() == orig.len(),
                        infos@ == orig.skip(handles@.len() as int),
                        forall|i: int|
                            0 <= i < handles@.len() ==> {
                                &&& (#[trigger] handles@[i]).wf()
                                &&& handles@[i].state is Idle
                                &&& handles@[i].column_names@ == orig[i].column_names@
                                &&& handles@[i].parameter_count == orig[i].parameter_count
                                &&& handles@[i].slots@.len() == 0
                                &&& handles@[i].last_row is None
                                &&& handles@[i].bindings@.len() == 0
                            },
                    decreases infos@.len(),
                {
                    let info = infos.remove(0);
                    proof {
                        assert(info == orig[handles@.len() as int]);
                        assert(infos@ =~= orig.skip(handles@.len() as int + 1));
                    }
                    handles.push(StatementHandle::from_prepared(info));
                }
                Ok(Statement { handles })
            },
        }
    }

    /// One compiled statement handle, by position.
    pub fn handle(&self, k: usize) -> (r: &StatementHandle)
        requires
            k < self.handles@.len(),
        ensures
            r == self.handles@[k as int],
    {
        &self.handles[k]
    }

    /// Resets every handle for reuse; any still-alive row from the
    /// previous execution is inflated first.
    pub fn reset(&mut self)
        requires
            old(self).wf(),
        ensures
            final(self).wf(),
            final(self).handles@.len() == old(self).handles@.len(),
            forall|i: int|
                0 <= i < final(self).handles@.len() ==> {
                    &&& (#[trigger] final(self).handles@[i]).state is Idle
                    &&& final(self).handles@[i].bindings@.len() == 0
                    &&& final(self).handles@[i].last_row is None
                    &&& final(self).handles@[i].wf()
                    &&& StatementHandle::slots_preserved(
                        old(self).handles@[i],
                        final(self).handles@[i],
                    )
                    &&& final(self).handles@[i].column_names@ == old(
                        self,
                    ).handles@[i].column_names@
                    &&& final(self).handles@[i].parameter_count == old(
                        self,
                    ).handles@[i].parameter_count
                },
    {
        let n = self.handles.len();
        let mut i: usize = 0;
        while i < n
            invariant
                0 <= i <= n,
                n == self.handles@.len(),
                n == old(self).handles@.len(),
                forall|j: int| 0 <= j < n ==> (#[trigger] self.handles@[j]).wf(),
                forall|j: int|
                    i <= j < n ==> (#[trigger] self.handles@[j]) == old(self).handles@[j],
                forall|j: int|
                    0 <= j < i ==> {
                        &&& (#[trigger] self.handles@[j]).state is Idle
                        &&& self.handles@[j].bindings@.len() == 0
                        &&& self.handles@[j].last_row is None
                        &&& self.handles@[j].wf()
                        &&& StatementHandle::slots_preserved(
                            old(self).handles@[j],
                            self.handles@[j],
                        )
                        &&& self.handles@[j].column_names@ == old(self).handles@[j].column_names@
                        &&& self.handles@[j].parameter_count == old(
                            self,
                        ).handles@[j].parameter_count
                    },
            decreases n - i,
        {
            let mut h = self.handles.remove(i);
            h.reset();
            self.handles.insert(i, h);
            i = i + 1;
        }
    }
}

} // verus!
