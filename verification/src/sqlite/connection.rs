//! The embedded-engine connection: the statement cache and the
//! stepping driver behind `fetch_many`.
//!
//! Non-persistent queries always prepare a fresh statement, used once
//! and then released. Persistent queries are cached by exact query
//! text; reuse resets the cached statement — inflating any row that
//! still references the previous execution — and rebinds parameters.
//!
//! The step events the drivers consume come from the worker's
//! handshake: the thread hosting the blocking native calls follows the
//! [`crate::sqlite::worker::StatementWorker`] protocol, whose contracts
//! allow only one stepping call in flight, so the events of one
//! execution arrive serialized and in order.

use vstd::prelude::*;
use crate::error::{DatabaseError, Error};
use crate::executor::FetchStep;
use crate::sqlite::arguments::SqliteArguments;
use crate::sqlite::row::SqliteRow;
use crate::sqlite::statement::{
    prepared_matches, PreparedStatementInfo, Statement, StatementHandle,
};
use crate::sqlite::value::{SqliteValue, SqliteValueModel};
use crate::sqlite::worker::StatementWorker;

verus! {

/// One event reported by the native engine while stepping a statement.
pub enum SqliteStepEvent {
    /// A record is ready; these are the values in the native buffers.
    Row(Vec<SqliteValue>),
    /// The end of results, with the final affected-row count.
    Done(u64),
    /// The engine reported a failure.
    Failed(DatabaseError),
}

/// Mathematical model of a step event.
pub enum SqliteStepEventModel {
    Row(Seq<SqliteValueModel>),
    Done(u64),
    Failed(crate::error::DatabaseErrorModel),
}

impl View for SqliteStepEvent {
    type V = SqliteStepEventModel;

    open spec fn view(&self) -> SqliteStepEventModel {
        match self {
            SqliteStepEvent::Row(vs) => SqliteStepEventModel::Row(
                vs@.map_values(|v: SqliteValue| v@),
            ),
            SqliteStepEvent::Done(n) => SqliteStepEventModel::Done(*n),
            SqliteStepEvent::Failed(e) => SqliteStepEventModel::Failed(e@),
        }
    }
}

/// The models of a sequence of step events.
pub open spec fn event_models(events: Seq<SqliteStepEvent>) -> Seq<SqliteStepEventModel> {
    events.map_values(|e: SqliteStepEvent| e@)
}

/// The number of leading row events before the first terminal event
/// (done or failed), or the length when none terminates the stream.
pub open spec fn spec_row_prefix_len(events: Seq<SqliteStepEventModel>) -> int
    decreases events.len(),
{
    if events.len() == 0 {
        0
    } else if !(events[0] is Row) {
        0
    } else {
        1 + spec_row_prefix_len(events.drop_first())
    }
}

proof fn lemma_row_prefix_len_bounds(events: Seq<SqliteStepEventModel>)
    ensures
        0 <= spec_row_prefix_len(events) <= events.len(),
    decreases events.len(),
{
    if events.len() > 0 && events[0] is Row {
        lemma_row_prefix_len_bounds(events.drop_first());
    }
}

proof fn lemma_row_prefix_len(events: Seq<SqliteStepEventModel>, j: int)
    requires
        0 <= j <= events.len(),
        forall|l: int| 0 <= l < j ==> (#[trigger] events[l]) is Row,
        j < events.len() ==> !(events[j] is Row),
    ensures
        spec_row_prefix_len(events) == j,
    decreases events.len(),
{
    if events.len() > 0 && j > 0 {
        assert(events[0] is Row);
        assert(forall|l: int|
            0 <= l < j - 1 ==> (#[trigger] events.drop_first()[l]) == events[l + 1]);
        lemma_row_prefix_len(events.drop_first(), j - 1);
    }
}

/// What the stepping driver guarantees of its output: each leading row
/// event yields a row, valid for the final statement handle and
/// carrying exactly the event's values as its snapshot; the first
/// terminal event yields the affected-row count or surfaces the
/// engine's error, and ends the stream — in exact source order.
pub open spec fn fetch_many_post(
    stmt: StatementHandle,
    events: Seq<SqliteStepEventModel>,
    out: Seq<Result<FetchStep<SqliteRow>, Error>>,
) -> bool {
    let k = spec_row_prefix_len(events);
    &&& out.len() == (if k < events.len() {
        k + 1
    } else {
        k
    })
    &&& (forall|j: int|
        0 <= j < k ==> {
            &&& (#[trigger] out[j]) matches Ok(FetchStep::Row(row))
            &&& row.valid_for(stmt)
            &&& events[j] matches SqliteStepEventModel::Row(vals)
            &&& row.snapshot@ == vals
        })
    &&& (k < events.len() ==> match events[k] {
        SqliteStepEventModel::Row(_) => false,
        SqliteStepEventModel::Done(n) => out[k] == Ok::<FetchStep<SqliteRow>, Error>(
            FetchStep::Count(n),
        ),
        SqliteStepEventModel::Failed(e) => out[k] matches Err(e2) && e2@
            == crate::error::ErrorModel::Database(e),
    })
}

/// Drives one statement handle over the events the native engine
/// reported, in order: before every step the last yielded row is
/// inflated if it is still alive; each row event yields a fresh row;
/// the first done event yields the affected-row count and ends the
/// stream; a failure surfaces the engine's error and ends the stream.
#[verifier::loop_isolation(false)]
pub fn drive_fetch_many(stmt: &mut StatementHandle, events: Vec<SqliteStepEvent>) -> (out: Vec<
    Result<FetchStep<SqliteRow>, Error>,
>)
    requires
        old(stmt).wf(),
        old(stmt).last_row is None,
    ensures
        final(stmt).wf(),
        StatementHandle::slots_preserved(*old(stmt), *final(stmt)),
        StatementHandle::same_statement(*old(stmt), *final(stmt)),
        fetch_many_post(*final(stmt), event_models(events@), out@),
{
    let ghost models = event_models(events@);
    let mut events = events;
    let mut out: Vec<Result<FetchStep<SqliteRow>, Error>> = Vec::new();
    let ghost mut processed: int = 0;
    loop
        invariant
            stmt.wf(),
            0 <= processed <= models.len(),
            event_models(events@) =~= models.skip(processed),
            out@.len() == processed,
            forall|l: int| 0 <= l < processed ==> (#[trigger] models[l]) is Row,
            StatementHandle::slots_preserved(*old(stmt), *stmt),
            StatementHandle::same_statement(*old(stmt), *stmt),
            forall|j: int|
                0 <= j < processed ==> {
                    &&& (#[trigger] out@[j]) matches Ok(FetchStep::Row(row))
                    &&& row.valid_for(*stmt)
                    &&& models[j] matches SqliteStepEventModel::Row(vals)
                    &&& row.snapshot@ == vals
                },
            processed > 0 ==> stmt.state is RowAvailable,
            processed == 0 ==> stmt.last_row is None,
        decreases events@.len(),
    {
        if events.len() == 0 {
            proof {
                lemma_row_prefix_len(models, processed);
            }
            return out;
        }
        // save the values from the current position on the statement
        // into any still-alive row before advancing the cursor
        let ghost stmt0 = *stmt;
        stmt.inflate_if_needed();
        let ghost pre = events@;
        let ev = events.remove(0);
        proof {
            assert(ev == pre[0]);
            assert(event_models(pre)[0] == ev@);
            assert(models.skip(processed)[0] == models[processed]);
            assert(ev@ == models[processed]);
            assert forall|l: int| 0 <= l < events@.len() implies event_models(events@)[l]
                == models.skip(processed + 1)[l] by {
                assert(events@[l] == pre[l + 1]);
                assert(event_models(pre)[l + 1] == models.skip(processed)[l + 1]);
                assert(models.skip(processed)[l + 1] == models[processed + 1 + l]);
                assert(models.skip(processed + 1)[l] == models[processed + 1 + l]);
            }
            assert(event_models(events@) =~= models.skip(processed + 1));
        }
        match ev {
            SqliteStepEvent::Row(vals) => {
                let ghost valms = vals@.map_values(|v: SqliteValue| v@);
                stmt.step_row(vals);
                let ghost stmt2 = *stmt;
                let row = stmt.yield_row();
                out.push(Ok(FetchStep::Row(row)));
                proof {
                    processed = processed + 1;
                    StatementHandle::lemma_slots_preserved_trans(stmt0, stmt2, *stmt);
                    StatementHandle::lemma_slots_preserved_trans(*old(stmt), stmt0, *stmt);
                    assert(models[processed - 1] matches SqliteStepEventModel::Row(vm) && vm
                        =~= row.snapshot@);
                    assert forall|j: int| 0 <= j < processed implies {
                        &&& (#[trigger] out@[j]) matches Ok(FetchStep::Row(r2))
                        &&& r2.valid_for(*stmt)
                        &&& models[j] matches SqliteStepEventModel::Row(vals2)
                        &&& r2.snapshot@ == vals2
                    } by {
                        if j < processed - 1 {
                            match out@[j] {
                                Ok(FetchStep::Row(r3)) => {
                                    assert(r3.valid_for(stmt0));
                                    StatementHandle::lemma_row_stays_valid(r3, stmt0, *stmt);
                                },
                                _ => {},
                            }
                        }
                    }
                }
            },
            SqliteStepEvent::Done(n) => {
                stmt.step_done(n);
                out.push(Ok(FetchStep::Count(n)));
                proof {
                    lemma_row_prefix_len(models, processed);
                    StatementHandle::lemma_slots_preserved_trans(*old(stmt), stmt0, *stmt);
                    assert forall|j: int| 0 <= j < processed implies {
                        &&& (#[trigger] out@[j]) matches Ok(FetchStep::Row(r2))
                        &&& r2.valid_for(*stmt)
                        &&& models[j] matches SqliteStepEventModel::Row(vals2)
                        &&& r2.snapshot@ == vals2
                    } by {
                        match out@[j] {
                            Ok(FetchStep::Row(r3)) => {
                                assert(r3.valid_for(stmt0));
                                StatementHandle::lemma_row_stays_valid(r3, stmt0, *stmt);
                            },
                            _ => {},
                        }
                    }
                }
                return out;
            },
            SqliteStepEvent::Failed(e) => {
                out.push(Err(Error::Database(e)));
                proof {
                    lemma_row_prefix_len(models, processed);
                    StatementHandle::lemma_slots_preserved_trans(*old(stmt), stmt0, *stmt);
                    assert forall|j: int| 0 <= j < processed implies {
                        &&& (#[trigger] out@[j]) matches Ok(FetchStep::Row(r2))
                        &&& r2.valid_for(*stmt)
                        &&& models[j] matches SqliteStepEventModel::Row(vals2)
                        &&& r2.snapshot@ == vals2
                    } by {
                        match out@[j] {
                            Ok(FetchStep::Row(r3)) => {
                                assert(r3.valid_for(stmt0));
                                StatementHandle::lemma_row_stays_valid(r3, stmt0, *stmt);
                            },
                            _ => {},
                        }
                    }
                }
                return out;
            },
        }
    }
}

/// Mathematical model of one produced stream item: a row's values,
/// a completed statement's affected-row count, or the engine's error.
pub enum FetchItemModel {
    Row(Seq<SqliteValueModel>),
    Count(u64),
    Failure(crate::error::DatabaseErrorModel),
}

/// The model of one output item. Streams built here only ever carry
/// engine failures; any other error shape has no stream model and maps
/// to a zeroed failure.
pub open spec fn item_model(it: Result<FetchStep<SqliteRow>, Error>) -> FetchItemModel {
    match it {
        Ok(FetchStep::Row(row)) => FetchItemModel::Row(row.snapshot@),
        Ok(FetchStep::Count(n)) => FetchItemModel::Count(n),
        Err(e) => match e@ {
            crate::error::ErrorModel::Database(em) => FetchItemModel::Failure(em),
            _ => FetchItemModel::Failure(
                crate::error::DatabaseErrorModel { message: Seq::empty(), code: 0 },
            ),
        },
    }
}

/// The models of a whole output stream.
pub open spec fn out_models(out: Seq<Result<FetchStep<SqliteRow>, Error>>) -> Seq<FetchItemModel> {
    out.map_values(|it: Result<FetchStep<SqliteRow>, Error>| item_model(it))
}

/// The values a row event carries.
pub open spec fn row_event_values(e: SqliteStepEventModel) -> Seq<SqliteValueModel> {
    match e {
        SqliteStepEventModel::Row(vals) => vals,
        _ => Seq::empty(),
    }
}

/// The items one handle's event stream contributes: its rows in
/// order, then its count or its failure if the stream reaches one.
pub open spec fn segment_models(e: Seq<SqliteStepEventModel>) -> Seq<FetchItemModel> {
    let k = spec_row_prefix_len(e);
    let rows = Seq::new(k as nat, |j: int| FetchItemModel::Row(row_event_values(e[j])));
    if k < e.len() {
        match e[k] {
            SqliteStepEventModel::Row(_) => rows,
            SqliteStepEventModel::Done(n) => rows.push(FetchItemModel::Count(n)),
            SqliteStepEventModel::Failed(em) => rows.push(FetchItemModel::Failure(em)),
        }
    } else {
        rows
    }
}

/// Whether a handle's event stream ran its statement to completion.
pub open spec fn segment_completed(e: Seq<SqliteStepEventModel>) -> bool {
    let k = spec_row_prefix_len(e);
    k < e.len() && e[k] is Done
}

/// The models of each handle's event stream.
pub open spec fn batch_models(batches: Seq<Vec<SqliteStepEvent>>) -> Seq<
    Seq<SqliteStepEventModel>,
> {
    batches.map_values(|b: Vec<SqliteStepEvent>| event_models(b@))
}

/// The items a multi-statement execution produces: each handle's
/// segment in source order, stopping after the first handle whose
/// stream does not complete its statement (a failure, or a dropped
/// stream).
pub open spec fn multi_models(batches: Seq<Seq<SqliteStepEventModel>>) -> Seq<FetchItemModel>
    decreases batches.len(),
{
    if batches.len() == 0 {
        Seq::empty()
    } else if segment_completed(batches[0]) {
        segment_models(batches[0]) + multi_models(batches.drop_first())
    } else {
        segment_models(batches[0])
    }
}

/// How many completed statements precede item `j`: the index of the
/// handle that produced it.
pub open spec fn counts_before(ms: Seq<FetchItemModel>, j: int) -> int
    decreases j,
{
    if j <= 0 {
        0
    } else {
        counts_before(ms, j - 1) + if ms[j - 1] is Count {
            1int
        } else {
            0int
        }
    }
}

/// Under the single-handle driver's guarantee, the output maps
/// item-for-item onto the event stream's segment, and the last item
/// tells whether the statement completed.
proof fn lemma_post_gives_segment(
    h: StatementHandle,
    e: Seq<SqliteStepEventModel>,
    items: Seq<Result<FetchStep<SqliteRow>, Error>>,
)
    requires
        fetch_many_post(h, e, items),
    ensures
        out_models(items) == segment_models(e),
        segment_completed(e) <==> (items.len() > 0 && items.last() matches Ok(
            FetchStep::Count(_),
        )),
        forall|j: int| 0 <= j < items.len() ==> ((#[trigger] items[j]) matches Err(er) ==> er@
            is Database),
        forall|j: int|
            0 <= j < items.len() ==> !((#[trigger] items[j]) matches Ok(FetchStep::Row(_)))
                ==> j == items.len() - 1,
{
    let k = spec_row_prefix_len(e);
    lemma_row_prefix_len_bounds(e);
    assert forall|j: int| 0 <= j < items.len() implies #[trigger] out_models(items)[j]
        == segment_models(e)[j] by {
        if j < k {
            assert(items[j] matches Ok(FetchStep::Row(row)) && e[j] matches
                SqliteStepEventModel::Row(vals) && row.snapshot@ == vals);
        }
    }
    assert(out_models(items) =~= segment_models(e));
}

/// `counts_before` looks through one leading item.
proof fn lemma_counts_before_step(ms: Seq<FetchItemModel>, j: int)
    requires
        0 <= j,
        j + 1 <= ms.len(),
    ensures
        counts_before(ms, j + 1) == counts_before(ms.drop_first(), j) + if ms[0] is Count {
            1int
        } else {
            0int
        },
    decreases j,
{
    if j > 0 {
        lemma_counts_before_step(ms, j - 1);
        assert(ms.drop_first()[j - 1] == ms[j]);
        assert(counts_before(ms, j + 1) == counts_before(ms, j) + (if ms[j] is Count {
            1int
        } else {
            0int
        }));
        assert(counts_before(ms.drop_first(), j) == counts_before(ms.drop_first(), j - 1) + (
        if ms.drop_first()[j - 1] is Count {
            1int
        } else {
            0int
        }));
    } else {
        assert(counts_before(ms, j + 1) == counts_before(ms, j) + (if ms[j] is Count {
            1int
        } else {
            0int
        }));
        assert(counts_before(ms, j) == 0);
        assert(counts_before(ms.drop_first(), j) == 0);
    }
}

/// Appending items does not change how earlier items are counted.
proof fn lemma_counts_before_append(a: Seq<FetchItemModel>, b: Seq<FetchItemModel>, j: int)
    requires
        0 <= j <= a.len(),
    ensures
        counts_before(a + b, j) == counts_before(a, j),
    decreases j,
{
    if j > 0 {
        lemma_counts_before_append(a, b, j - 1);
        assert((a + b)[j - 1] == a[j - 1]);
    }
}

/// The count of counts in a whole sequence, as `counts_before` its end.
proof fn lemma_counts_before_extend(a: Seq<FetchItemModel>, b: Seq<FetchItemModel>, j: int)
    requires
        0 <= j <= b.len(),
    ensures
        counts_before(a + b, a.len() + j) == counts_before(a + b, a.len() as int) + counts_before(
            b,
            j,
        ),
    decreases j,
{
    if j > 0 {
        lemma_counts_before_extend(a, b, j - 1);
        assert((a + b)[a.len() + j - 1] == b[j - 1]);
    }
}

/// A stretch of non-count items counts nothing.
proof fn lemma_counts_before_no_counts(ms: Seq<FetchItemModel>, j: int)
    requires
        0 <= j <= ms.len(),
        forall|l: int| 0 <= l < j ==> !((#[trigger] ms[l]) is Count),
    ensures
        counts_before(ms, j) == 0,
    decreases j,
{
    if j > 0 {
        lemma_counts_before_no_counts(ms, j - 1);
    }
}

/// One handle's segment counts exactly one completed statement.
proof fn lemma_counts_in_segment(e: Seq<SqliteStepEventModel>)
    ensures
        counts_before(segment_models(e), segment_models(e).len() as int) == (
        if segment_completed(e) {
            1int
        } else {
            0int
        }),
{
    let ms = segment_models(e);
    let k = spec_row_prefix_len(e);
    lemma_row_prefix_len_bounds(e);
    assert(forall|l: int| 0 <= l < k ==> !((#[trigger] ms[l]) is Count));
    lemma_counts_before_no_counts(ms, k);
    if k < e.len() {
        assert(counts_before(ms, k + 1) == counts_before(ms, k) + (if ms[k] is Count {
            1int
        } else {
            0int
        }));
    }
}

/// Drives every compiled handle of a statement in source order: each
/// handle's rows, then its affected-row count, then the next handle —
/// stopping at the first handle whose stream fails or is cut short.
/// The output maps item-for-item onto the event streams' model, and
/// every yielded row stays valid for the handle that produced it.
#[verifier::loop_isolation(false)]
pub fn drive_statement(stmt: &mut Statement, events: Vec<Vec<SqliteStepEvent>>) -> (out: Vec<
    Result<FetchStep<SqliteRow>, Error>,
>)
    requires
        old(stmt).wf(),
        forall|k: int|
            0 <= k < old(stmt).handles@.len() ==> (#[trigger] old(
                stmt,
            ).handles@[k]).last_row is None,
        events@.len() == old(stmt).handles@.len(),
    ensures
        final(stmt).wf(),
        final(stmt).handles@.len() == old(stmt).handles@.len(),
        forall|k: int|
            0 <= k < old(stmt).handles@.len() ==> {
                &&& StatementHandle::slots_preserved(
                    old(stmt).handles@[k],
                    #[trigger] final(stmt).handles@[k],
                )
                &&& StatementHandle::same_statement(
                    old(stmt).handles@[k],
                    final(stmt).handles@[k],
                )
            },
        out_models(out@) == multi_models(batch_models(events@)),
        forall|j: int|
            0 <= j < out@.len() ==> ((#[trigger] out@[j]) matches Ok(FetchStep::Row(row)) ==> {
                let idx = counts_before(out_models(out@), j);
                &&& 0 <= idx < final(stmt).handles@.len()
                &&& row.valid_for(final(stmt).handles@[idx])
            }),
        forall|j: int|
            0 <= j < out@.len() ==> ((#[trigger] out@[j]) matches Err(e) ==> e@ is Database),
{
    let ghost bms = batch_models(events@);
    let mut events = events;
    let mut out: Vec<Result<FetchStep<SqliteRow>, Error>> = Vec::new();
    let n = stmt.handles.len();
    let mut k: usize = 0;
    proof {
        assert(bms.skip(0) =~= bms);
        assert(out_models(out@) =~= Seq::<FetchItemModel>::empty());
        assert(out_models(out@) + multi_models(bms.skip(0)) =~= multi_models(bms));
    }
    loop
        invariant
            stmt.wf(),
            stmt.handles@.len() == n,
            n == old(stmt).handles@.len(),
            0 <= k <= n,
            bms.len() == n,
            events@.len() == n - k,
            batch_models(events@) =~= bms.skip(k as int),
            forall|l: int| 0 <= l < k ==> segment_completed(#[trigger] bms[l]),
            out_models(out@) + multi_models(bms.skip(k as int)) == multi_models(bms),
            counts_before(out_models(out@), out@.len() as int) == k,
            forall|l: int|
                0 <= l < n ==> {
                    &&& StatementHandle::slots_preserved(
                        old(stmt).handles@[l],
                        #[trigger] stmt.handles@[l],
                    )
                    &&& StatementHandle::same_statement(
                        old(stmt).handles@[l],
                        stmt.handles@[l],
                    )
                },
            forall|l: int| k <= l < n ==> #[trigger] stmt.handles@[l] == old(stmt).handles@[l],
            forall|j: int|
                0 <= j < out@.len() ==> ((#[trigger] out@[j]) matches Ok(FetchStep::Row(row))
                    ==> {
                    let idx = counts_before(out_models(out@), j);
                    &&& 0 <= idx < n
                    &&& row.valid_for(stmt.handles@[idx])
                }),
            forall|j: int|
                0 <= j < out@.len() ==> ((#[trigger] out@[j]) matches Err(e) ==> e@
                    is Database),
        decreases n - k,
    {
        if k == n {
            proof {
                assert(multi_models(bms.skip(k as int)) =~= Seq::<FetchItemModel>::empty());
                assert(out_models(out@) =~= multi_models(bms));
            }
            return out;
        }
        let ghost pre_batches = events@;
        let batch = events.remove(0);
        proof {
            assert(batch == pre_batches[0]);
            assert(batch_models(pre_batches)[0] == event_models(batch@));
            assert(bms.skip(k as int)[0] == bms[k as int]);
            assert(event_models(batch@) == bms[k as int]);
            assert forall|l: int| 0 <= l < events@.len() implies #[trigger] batch_models(
                events@,
            )[l] == bms.skip(k + 1)[l] by {
                assert(events@[l] == pre_batches[l + 1]);
                assert(batch_models(pre_batches)[l + 1] == bms.skip(k as int)[l + 1]);
                assert(bms.skip(k as int)[l + 1] == bms[k + 1 + l]);
                assert(bms.skip(k + 1)[l] == bms[k + 1 + l]);
            }
            assert(batch_models(events@) =~= bms.skip(k + 1));
        }
        let ghost stmt_pre = *stmt;
        let mut h = stmt.handles.remove(k);
        let ghost h0 = h;
        let items = drive_fetch_many(&mut h, batch);
        stmt.handles.insert(k, h);
        let ghost seg = bms[k as int];
        let ghost items_view = items@;
        let ghost out0 = out@;
        proof {
            assert(stmt.handles@[k as int] == h);
            assert(h0 == stmt_pre.handles@[k as int]);
            assert forall|l: int|
                0 <= l < n && l != k as int implies #[trigger] stmt.handles@[l]
                == stmt_pre.handles@[l] by {}
            lemma_post_gives_segment(h, seg, items_view);
            assert(out_models(items_view) == segment_models(seg));
        }
        let m = items.len();
        let completed = if m == 0 {
            false
        } else {
            matches!(&items[m - 1], Ok(FetchStep::Count(_)))
        };
        proof {
            assert(completed == segment_completed(seg));
        }
        let mut items = items;
        out.append(&mut items);
        proof {
            assert(out@ =~= out0 + items_view);
            // the output models concatenate segment-wise
            assert forall|j: int| 0 <= j < out@.len() implies #[trigger] out_models(out@)[j] == (
            out_models(out0) + out_models(items_view))[j] by {
                if j < out0.len() {
                    assert(out@[j] == out0[j]);
                } else {
                    assert(out@[j] == items_view[j - out0.len()]);
                }
            }
            assert(out_models(out@) =~= out_models(out0) + out_models(items_view));
            // count bookkeeping: the new segment adds one completed
            // statement exactly when it ran to completion
            lemma_counts_before_append(out_models(out0), out_models(items_view), out0.len() as int);
            lemma_counts_before_extend(
                out_models(out0),
                out_models(items_view),
                items_view.len() as int,
            );
            lemma_counts_in_segment(seg);
            assert(counts_before(out_models(out@), out@.len() as int) == k + (
            if segment_completed(seg) {
                1int
            } else {
                0int
            }));
            // earlier rows keep their handle index and stay valid
            assert forall|j: int|
                0 <= j < out@.len() implies ((#[trigger] out@[j]) matches Ok(
                FetchStep::Row(row),
            ) ==> {
                let idx = counts_before(out_models(out@), j);
                &&& 0 <= idx < n
                &&& row.valid_for(stmt.handles@[idx])
            }) by {
                if j < out0.len() {
                    lemma_counts_before_append(out_models(out0), out_models(items_view), j);
                    assert(out@[j] == out0[j]);
                    assert(counts_before(out_models(out@), j) == counts_before(
                        out_models(out0),
                        j,
                    ));
                    match out0[j] {
                        Ok(FetchStep::Row(row)) => {
                            let idx = counts_before(out_models(out0), j);
                            assert(row.valid_for(stmt_pre.handles@[idx]));
                            if idx == k as int {
                                // its handle was just driven further:
                                // slots are preserved, so the row stays
                                StatementHandle::lemma_row_stays_valid(
                                    row,
                                    stmt_pre.handles@[idx],
                                    h,
                                );
                            } else {
                                assert(stmt.handles@[idx] == stmt_pre.handles@[idx]);
                            }
                        },
                        _ => {},
                    }
                } else {
                    let jj = j - out0.len();
                    assert(out@[j] == items_view[jj]);
                    match items_view[jj] {
                        Ok(FetchStep::Row(row)) => {
                            assert forall|l: int|
                                0 <= l < jj implies !((#[trigger] out_models(items_view)[l])
                                is Count) by {
                                assert(items_view[l] matches Ok(FetchStep::Row(_)));
                            }
                            lemma_counts_before_no_counts(out_models(items_view), jj);
                            lemma_counts_before_extend(
                                out_models(out0),
                                out_models(items_view),
                                jj,
                            );
                            assert(counts_before(out_models(out@), j) == k);
                            assert(row.valid_for(h));
                        },
                        _ => {},
                    }
                }
            }
        }
        if !completed {
            proof {
                assert(multi_models(bms.skip(k as int)) == segment_models(seg));
                assert(out_models(out@) =~= multi_models(bms));
            }
            return out;
        }
        proof {
            assert(bms.skip(k as int).drop_first() =~= bms.skip(k + 1));
            assert(multi_models(bms.skip(k as int)) == segment_models(seg) + multi_models(
                bms.skip(k + 1),
            ));
            assert((out_models(out0) + out_models(items_view)) + multi_models(bms.skip(k + 1))
                =~= out_models(out0) + (out_models(items_view) + multi_models(bms.skip(k + 1))));
            assert(out_models(out@) + multi_models(bms.skip(k + 1)) =~= multi_models(bms));
        }
        k = k + 1;
    }
}

/// A prepared statement either owned by the caller (non-persistent,
/// released after one use) or borrowed from the connection's cache at
/// the given index.
pub enum MaybeOwnedStatement {
    Owned(Statement),
    Borrowed(usize),
}

/// A connection to an embedded-engine database.
pub struct SqliteConnection {
    /// Persistent statements, cached by exact query text.
    pub statements: Vec<(String, Statement)>,
    /// The worker serializing this connection's native step calls.
    pub worker: StatementWorker,
}

impl SqliteConnection {
    /// The cached query texts, in insertion order.
    pub open spec fn cache_keys(self) -> Seq<Seq<char>> {
        self.statements@.map_values(|e: (String, Statement)| e.0@)
    }

    /// Whether a query text is cached.
    pub open spec fn contains_query(self, q: Seq<char>) -> bool {
        exists|i: int| 0 <= i < self.cache_keys().len() && self.cache_keys()[i] == q
    }

    /// Every cached statement is well-formed, each query text is
    /// cached at most once, and the worker holds no pending step.
    pub open spec fn wf(self) -> bool {
        &&& (forall|i: int|
            0 <= i < self.statements@.len() ==> (#[trigger] self.statements@[i].1).wf())
        &&& (forall|i: int, j: int|
            0 <= i < j < self.cache_keys().len() ==> self.cache_keys()[i] != self.cache_keys()[j])
        &&& !(self.worker.state is StepPending)
    }

    /// The cache slot a cached query text lives in.
    pub open spec fn cache_index_of(self, q: Seq<char>) -> int {
        choose|i: int| 0 <= i < self.cache_keys().len() && self.cache_keys()[i] == q
    }

    /// A fresh connection with an empty statement cache and a parked
    /// worker.
    pub fn new() -> (r: Self)
        ensures
            r.wf(),
            r.statements@.len() == 0,
            r.worker.state is Parked,
    {
        SqliteConnection { statements: Vec::new(), worker: StatementWorker::new() }
    }

    /// The index of a cached query text.
    fn find_statement(&self, query: &String) -> (r: Option<usize>)
        ensures
            match r {
                Some(i) => i < self.statements@.len() && self.statements@[i as int].0@ == query@,
                None => !self.contains_query(query@),
            },
    {
        let n = self.statements.len();
        let mut i: usize = 0;
        while i < n
            invariant
                0 <= i <= n,
                n == self.statements@.len(),
                forall|j: int| 0 <= j < i ==> (#[trigger] self.statements@[j].0)@ != query@,
            decreases n - i,
        {
            if self.statements[i].0 == *query {
                return Some(i);
            }
            i = i + 1;
        }
        None
    }

    /// Prepares a statement for `query`, given what the native engine
    /// compiles the text to (consulted only when the text is not
    /// already cached).
    ///
    /// A non-persistent query always gets a fresh statement, owned by
    /// the caller. A persistent query is served from the cache when
    /// its exact text is present — no new compilation, the cached
    /// statement is reset and any still-alive row of its previous
    /// execution inflated — and otherwise compiled, cached, and served
    /// from its new cache slot.
    pub fn prepare(
        &mut self,
        query: &String,
        persistent: bool,
        compiled: Result<Vec<PreparedStatementInfo>, DatabaseError>,
    ) -> (r: Result<MaybeOwnedStatement, Error>)
        requires
            old(self).wf(),
            vstd::utf8::encode_utf8(query@).len() <= usize::MAX,
        ensures
            final(self).wf(),
            final(self).worker == old(self).worker,
            r is Err ==> final(self).statements@ == old(self).statements@,
            !persistent ==> final(self).statements@ == old(self).statements@,
            !persistent && r is Ok ==> prepare_owned_post(compiled, r),
            persistent && r is Ok ==> prepare_cached_post(
                *old(self),
                *final(self),
                query@,
                compiled,
                r,
            ),
            persistent && old(self).contains_query(query@) ==> r is Ok,
            vstd::utf8::encode_utf8(query@).len() <= 0x7fff_ffff && compiled is Ok ==> r is Ok,
            r matches Err(e) ==> (e@ is Protocol || e@ is Database),
            vstd::utf8::encode_utf8(query@).len() <= 0x7fff_ffff && !(persistent && old(
                self,
            ).contains_query(query@)) ==> (compiled matches Err(ce) ==> (r matches Err(e2) && e2@
                == crate::error::ErrorModel::Database(ce@))),
    {
        if !persistent {
            return match Statement::prepare(query.as_str(), compiled) {
                Ok(s) => Ok(MaybeOwnedStatement::Owned(s)),
                Err(e) => Err(e),
            };
        }
        match self.find_statement(query) {
            Some(i) => {
                // as this statement has been executed before, reset it
                // before continuing; this also inflates any row still
                // referencing its previous execution
                let (key, mut st) = self.statements.remove(i);
                st.reset();
                self.statements.insert(i, (key, st));
                proof {
                    assert(old(self).cache_keys()[i as int] == query@);
                    assert(old(self).contains_query(query@));
                    assert(self.cache_keys() =~= old(self).cache_keys());
                    assert forall|a: int, b: int|
                        0 <= a < b < self.cache_keys().len() implies self.cache_keys()[a]
                        != self.cache_keys()[b] by {
                        assert(old(self).cache_keys()[a] != old(self).cache_keys()[b]);
                    }
                }
                Ok(MaybeOwnedStatement::Borrowed(i))
            },
            None => {
                match Statement::prepare(query.as_str(), compiled) {
                    Ok(s) => {
                        let i = self.statements.len();
                        self.statements.push((query.clone(), s));
                        proof {
                            assert(!old(self).contains_query(query@));
                            assert(self.statements@[i as int].0@ == query@);
                            assert(self.cache_keys() =~= old(self).cache_keys().push(query@));
                            assert(self.cache_keys() == old(self).cache_keys().push(query@));
                            assert forall|a: int, b: int|
                                0 <= a < b < self.cache_keys().len() implies self.cache_keys()[a]
                                != self.cache_keys()[b] by {
                                if b < i as int {
                                    assert(old(self).cache_keys()[a] != old(
                                        self,
                                    ).cache_keys()[b]);
                                } else {
                                    // the appended key was not cached before
                                    assert(self.cache_keys()[b] == query@);
                                    if self.cache_keys()[a] == query@ {
                                        assert(old(self).cache_keys()[a] == query@);
                                        assert(old(self).contains_query(query@));
                                    }
                                }
                            }
                        }
                        Ok(MaybeOwnedStatement::Borrowed(i))
                    },
                    Err(e) => Err(e),
                }
            },
        }
    }
}

/// What a successful non-persistent prepare returns: a caller-owned
/// fresh statement, exactly as the engine compiled the text.
pub open spec fn prepare_owned_post(
    compiled: Result<Vec<PreparedStatementInfo>, DatabaseError>,
    r: Result<MaybeOwnedStatement, Error>,
) -> bool {
    match r {
        Ok(MaybeOwnedStatement::Owned(s)) => match compiled {
            Ok(infos) => prepared_matches(s, infos@),
            Err(_) => false,
        },
        _ => false,
    }
}

/// What a successful persistent prepare does to the cache: a hit
/// leaves the keys untouched and resets exactly the hit entry; a miss
/// appends the freshly compiled statement under the query text. Either
/// way the returned index points at the served entry.
pub open spec fn prepare_cached_post(
    old_c: SqliteConnection,
    new_c: SqliteConnection,
    q: Seq<char>,
    compiled: Result<Vec<PreparedStatementInfo>, DatabaseError>,
    r: Result<MaybeOwnedStatement, Error>,
) -> bool {
    match r {
        Ok(MaybeOwnedStatement::Borrowed(i)) => {
            &&& (i as int) < new_c.statements@.len()
            &&& new_c.statements@[i as int].0@ == q
            &&& (old_c.contains_query(q) ==> {
                &&& new_c.cache_keys() == old_c.cache_keys()
                &&& new_c.statements@.len() == old_c.statements@.len()
                &&& (forall|j: int|
                    0 <= j < old_c.statements@.len() && j != i
                        ==> #[trigger] new_c.statements@[j] == old_c.statements@[j])
                &&& reset_from(old_c.statements@[i as int].1, new_c.statements@[i as int].1)
            })
            &&& (!old_c.contains_query(q) ==> {
                &&& new_c.cache_keys() == old_c.cache_keys().push(q)
                &&& new_c.statements@.len() == old_c.statements@.len() + 1
                &&& (i as int) == old_c.statements@.len()
                &&& (forall|j: int|
                    0 <= j < old_c.statements@.len() ==> #[trigger] new_c.statements@[j]
                        == old_c.statements@[j])
                &&& match compiled {
                    Ok(infos) => prepared_matches(new_c.statements@[i as int].1, infos@),
                    Err(_) => false,
                }
            })
        },
        _ => false,
    }
}

/// A statement's result shape matches what the engine compiled: one
/// handle per compiled statement, with its column names and declared
/// parameter count.
pub open spec fn statement_shape(s: Statement, infos: Seq<PreparedStatementInfo>) -> bool {
    &&& s.handles@.len() == infos.len()
    &&& (forall|k: int|
        0 <= k < infos.len() ==> {
            &&& (#[trigger] s.handles@[k]).column_names@ == infos[k].column_names@
            &&& s.handles@[k].parameter_count == infos[k].parameter_count
        })
}

/// Two statements with the same compiled shape: handle for handle,
/// the same column names and declared parameter counts.
pub open spec fn same_shape(a: Statement, b: Statement) -> bool {
    &&& b.handles@.len() == a.handles@.len()
    &&& (forall|k: int|
        0 <= k < b.handles@.len() ==> {
            &&& (#[trigger] b.handles@[k]).column_names@ == a.handles@[k].column_names@
            &&& b.handles@[k].parameter_count == a.handles@[k].parameter_count
        })
}

/// The statement a location points at.
pub open spec fn loc_statement(c: SqliteConnection, loc: MaybeOwnedStatement) -> Statement {
    match loc {
        MaybeOwnedStatement::Owned(s) => s,
        MaybeOwnedStatement::Borrowed(i) => c.statements@[i as int].1,
    }
}

/// The parameter count the statement serving `q` declares on its first
/// handle: the cached statement's on a (persistent) cache hit, else the
/// compiled form's; none when there is no handle to bind.
pub open spec fn declared_parameter_count(
    c: SqliteConnection,
    q: Seq<char>,
    persistent: bool,
    compiled: Result<Vec<PreparedStatementInfo>, DatabaseError>,
) -> Option<int> {
    if persistent && c.contains_query(q) {
        let st = c.statements@[c.cache_index_of(q)].1;
        if st.handles@.len() == 0 {
            None
        } else {
            Some(st.handles@[0].parameter_count as int)
        }
    } else {
        match compiled {
            Ok(infos) => if infos@.len() == 0 {
                None
            } else {
                Some(infos@[0].parameter_count as int)
            },
            Err(_) => None,
        }
    }
}

/// How many event streams one execution needs: one per handle of the
/// statement that will serve the query — nothing, when compiling fails
/// before any handle exists.
pub open spec fn fetch_events_fit(
    c: SqliteConnection,
    q: Seq<char>,
    persistent: bool,
    compiled: Result<Vec<PreparedStatementInfo>, DatabaseError>,
    nevents: int,
) -> bool {
    if persistent && c.contains_query(q) {
        nevents == c.statements@[c.cache_index_of(q)].1.handles@.len()
    } else {
        match compiled {
            Ok(infos) => nevents == infos@.len(),
            Err(_) => true,
        }
    }
}

/// What a successful execution did with the statement: a one-shot
/// query hands back a caller-owned statement of the compiled shape; a
/// bound query serves the cache — reusing the hit entry with its slots
/// preserved (held rows stay valid), or appending the freshly
/// compiled statement under the exact query text.
pub open spec fn fetch_location_post(
    old_c: SqliteConnection,
    new_c: SqliteConnection,
    q: Seq<char>,
    with_args: bool,
    compiled: Result<Vec<PreparedStatementInfo>, DatabaseError>,
    loc: MaybeOwnedStatement,
) -> bool {
    let st = loc_statement(new_c, loc);
    &&& ((loc is Owned) <==> !with_args)
    &&& st.wf()
    &&& (loc matches MaybeOwnedStatement::Borrowed(i) ==> {
        &&& (i as int) < new_c.statements@.len()
        &&& new_c.statements@[i as int].0@ == q
    })
    &&& (!with_args ==> {
        &&& new_c.statements@ == old_c.statements@
        &&& (compiled matches Ok(infos) && statement_shape(st, infos@))
    })
    &&& (with_args ==> (if old_c.contains_query(q) {
        let prev = old_c.statements@[old_c.cache_index_of(q)].1;
        &&& new_c.cache_keys() == old_c.cache_keys()
        &&& new_c.statements@.len() == old_c.statements@.len()
        &&& (loc matches MaybeOwnedStatement::Borrowed(i) ==> {
            &&& i as int == old_c.cache_index_of(q)
            &&& (forall|j: int|
                0 <= j < old_c.statements@.len() && j != i as int
                    ==> #[trigger] new_c.statements@[j] == old_c.statements@[j])
        })
        &&& same_shape(prev, st)
        &&& (forall|k: int|
            0 <= k < st.handles@.len() ==> StatementHandle::slots_preserved(
                prev.handles@[k],
                #[trigger] st.handles@[k],
            ))
    } else {
        &&& new_c.cache_keys() == old_c.cache_keys().push(q)
        &&& new_c.statements@.len() == old_c.statements@.len() + 1
        &&& (forall|j: int|
            0 <= j < old_c.statements@.len() ==> #[trigger] new_c.statements@[j]
                == old_c.statements@[j])
        &&& (compiled matches Ok(infos) && statement_shape(st, infos@))
    }))
}

/// When `fetch_many` owes success: the statement text within the
/// engine's limit and compiled cleanly (unless its exact text is
/// already cached), and any supplied arguments matching the declared
/// parameter count of the statement that will run.
pub open spec fn fetch_many_succeeds(
    c: SqliteConnection,
    q: Seq<char>,
    bound: Option<int>,
    compiled: Result<Vec<PreparedStatementInfo>, DatabaseError>,
) -> bool {
    match bound {
        None => {
            &&& vstd::utf8::encode_utf8(q).len() <= 0x7fff_ffff
            &&& compiled is Ok
        },
        Some(n) => {
            if c.contains_query(q) {
                let st = c.statements@[c.cache_index_of(q)].1;
                st.handles@.len() == 0 || n == st.handles@[0].parameter_count
            } else {
                &&& vstd::utf8::encode_utf8(q).len() <= 0x7fff_ffff
                &&& (compiled matches Ok(infos) && (infos@.len() == 0 || n
                    == infos@[0].parameter_count))
            }
        },
    }
}

impl SqliteConnection {
    /// The open flags a fresh connection passes to the engine:
    /// read-write plus create, a thread-safe no-mutex connection
    /// object, a private cache, and — for an in-memory database — the
    /// memory flag. The numeric values are the embedded engine's
    /// documented flag bits.
    pub fn connect_flags(in_memory: bool) -> (r: u32)
        ensures
            r == (if in_memory {
                0x00048086u32
            } else {
                0x00048006u32
            }),
    {
        // read-write | create | no-mutex | private-cache
        let base: u32 = 0x2 | 0x4 | 0x8000 | 0x40000;
        proof {
            assert((0x2u32 | 0x4 | 0x8000 | 0x40000) == 0x00048006u32) by (bit_vector);
            assert((0x00048006u32 | 0x80) == 0x00048086u32) by (bit_vector);
        }
        if in_memory {
            base | 0x80
        } else {
            base
        }
    }

    /// A cached statement, for reading rows it yielded.
    pub fn cached_statement(&self, i: usize) -> (r: &Statement)
        requires
            i < self.statements@.len(),
        ensures
            r == self.statements@[i as int].1,
    {
        &self.statements[i].1
    }

    /// The foundational streaming primitive against this connection:
    /// prepares (or reuses) the statement for `query`, binds the
    /// arguments, hands the statement to the worker, and drives its
    /// first handle over the engine's step events, yielding rows and
    /// the affected-row count in exact execution order.
    ///
    /// The returned location says where the statement now lives: owned
    /// by the caller for a one-shot query, or in the connection's
    /// cache when arguments were supplied (the query is then prepared
    /// persistently). Yielded rows stay readable through that
    /// statement.
    pub fn fetch_many(
        &mut self,
        query: &String,
        arguments: Option<&SqliteArguments>,
        compiled: Result<Vec<PreparedStatementInfo>, DatabaseError>,
        events: Vec<Vec<SqliteStepEvent>>,
    ) -> (r: Result<(MaybeOwnedStatement, Vec<Result<FetchStep<SqliteRow>, Error>>), Error>)
        requires
            old(self).wf(),
            vstd::utf8::encode_utf8(query@).len() <= usize::MAX,
            fetch_events_fit(
                *old(self),
                query@,
                arguments is Some,
                compiled,
                events@.len() as int,
            ),
        ensures
            final(self).wf(),
            r matches Err(e) ==> (e@ is Protocol || e@ is Database),
            fetch_many_succeeds(
                *old(self),
                query@,
                match arguments {
                    Some(a) => Some(a.values@.len() as int),
                    None => None,
                },
                compiled,
            ) ==> r is Ok,
            vstd::utf8::encode_utf8(query@).len() <= 0x7fff_ffff && !(arguments is Some && old(
                self,
            ).contains_query(query@)) ==> (compiled matches Err(ce) ==> (r matches Err(e2) && e2@
                == crate::error::ErrorModel::Database(ce@))),
            ({
                &&& arguments matches Some(a)
                &&& vstd::utf8::encode_utf8(query@).len() <= 0x7fff_ffff
                &&& declared_parameter_count(*old(self), query@, true, compiled) matches Some(d)
                &&& a.values@.len() != d
            }) ==> (r matches Err(e) && e@ is Protocol),
            match r {
                Err(_) => true,
                Ok((loc, items)) => {
                    let st = loc_statement(*final(self), loc);
                    &&& fetch_location_post(
                        *old(self),
                        *final(self),
                        query@,
                        arguments is Some,
                        compiled,
                        loc,
                    )
                    &&& out_models(items@) == multi_models(batch_models(events@))
                    &&& (forall|j: int|
                        0 <= j < items@.len() ==> ((#[trigger] items@[j]) matches Ok(
                        FetchStep::Row(row)) ==> {
                            let idx = counts_before(out_models(items@), j);
                            &&& 0 <= idx < st.handles@.len()
                            &&& row.valid_for(st.handles@[idx])
                        }))
                    &&& (forall|j: int|
                        0 <= j < items@.len() ==> ((#[trigger] items@[j]) matches Err(e) ==> e@
                            is Database))
                },
            },
    {
        let persistent = arguments.is_some();
        let loc = match self.prepare(query, persistent, compiled) {
            Ok(l) => l,
            Err(e) => {
                return Err(e);
            },
        };
        let ghost mid = *self;
        match loc {
            MaybeOwnedStatement::Owned(mut s) => {
                // hand the statement off to the worker for stepping
                self.worker.execute();
                let items = drive_statement(&mut s, events);
                proof {
                    assert(self.cache_keys() =~= mid.cache_keys());
                    assert forall|a: int, b: int|
                        0 <= a < b < self.cache_keys().len() implies self.cache_keys()[a]
                        != self.cache_keys()[b] by {
                        assert(mid.cache_keys()[a] != mid.cache_keys()[b]);
                    }
                }
                Ok((MaybeOwnedStatement::Owned(s), items))
            },
            MaybeOwnedStatement::Borrowed(i) => {
                proof {
                    // the hit index is the cached text's unique slot
                    if old(self).contains_query(query@) {
                        assert(old(self).cache_keys()[i as int] == query@);
                        let j = old(self).cache_index_of(query@);
                        assert(0 <= j < old(self).cache_keys().len() && old(self).cache_keys()[j]
                            == query@);
                        if j < i as int {
                            assert(old(self).cache_keys()[j] != old(self).cache_keys()[i as int]);
                        } else if j > i as int {
                            assert(old(self).cache_keys()[i as int] != old(self).cache_keys()[j]);
                        }
                        assert(j == i as int);
                    }
                }
                let (key, mut st) = self.statements.remove(i);
                let ghost st_pre = st;
                let mut bind_failed: Option<Error> = None;
                if st.handles.len() > 0 {
                    match arguments {
                        Some(args) => {
                            let mut h = st.handles.remove(0);
                            let outcome = h.bind(args);
                            st.handles.insert(0, h);
                            proof {
                                assert(st.handles@[0] == h);
                                assert forall|k: int|
                                    0 <= k < st.handles@.len() implies (
                                #[trigger] st.handles@[k]).wf() by {
                                    if k > 0 {
                                        assert(st.handles@[k] == st_pre.handles@[k]);
                                    }
                                }
                            }
                            match outcome {
                                Ok(()) => {},
                                Err(e) => {
                                    bind_failed = Some(e);
                                },
                            }
                        },
                        None => {},
                    }
                }
                match bind_failed {
                    Some(e) => {
                        proof {
                            lemma_declared_count_mismatch_blocks_success(
                                *old(self),
                                query@,
                                i as int,
                                st_pre,
                                match arguments {
                                    Some(args) => args.values@.len() as int,
                                    None => 0,
                                },
                                compiled,
                            );
                        }
                        self.statements.insert(i, (key, st));
                        proof {
                            assert forall|j: int|
                                0 <= j < self.statements@.len() implies (
                            #[trigger] self.statements@[j].1).wf() by {
                                if j < i as int {
                                    assert(self.statements@[j] == mid.statements@[j]);
                                } else if j > i as int {
                                    assert(self.statements@[j] == mid.statements@[j]);
                                }
                            }
                            assert(self.cache_keys() =~= mid.cache_keys());
                            assert forall|a: int, b: int|
                                0 <= a < b < self.cache_keys().len() implies self.cache_keys()[a]
                                != self.cache_keys()[b] by {
                                assert(mid.cache_keys()[a] != mid.cache_keys()[b]);
                            }
                        }
                        return Err(e);
                    },
                    None => {},
                }
                let ghost st_bound = st;
                proof {
                    assert(st.handles@.len() == st_pre.handles@.len());
                    assert forall|k: int|
                        0 <= k < st.handles@.len() implies ((#[trigger] st.handles@[k]).wf()
                        && st.handles@[k].last_row is None && st.handles@[k].column_names@
                        == st_pre.handles@[k].column_names@ && st.handles@[k].parameter_count
                        == st_pre.handles@[k].parameter_count
                        && StatementHandle::slots_preserved(
                            st_pre.handles@[k],
                            st.handles@[k],
                        )) by {
                        if !(st_pre.handles@.len() > 0 && k == 0 && arguments is Some) {
                            assert(st.handles@[k] == st_pre.handles@[k]);
                        }
                    }
                }
                self.worker.execute();
                let items = drive_statement(&mut st, events);
                self.statements.insert(i, (key, st));
                proof {
                    assert(self.statements@[i as int].0 == key);
                    assert(self.statements@[i as int].1 == st);
                    assert forall|j: int|
                        0 <= j < self.statements@.len() implies (
                    #[trigger] self.statements@[j].1).wf() by {
                        if j < i as int {
                            assert(self.statements@[j] == mid.statements@[j]);
                        } else if j > i as int {
                            assert(self.statements@[j] == mid.statements@[j]);
                        }
                    }
                    assert(self.cache_keys() =~= mid.cache_keys());
                    assert forall|a: int, b: int|
                        0 <= a < b < self.cache_keys().len() implies self.cache_keys()[a]
                        != self.cache_keys()[b] by {
                        assert(mid.cache_keys()[a] != mid.cache_keys()[b]);
                    }
                    // the served entry keeps the cached statement's
                    // shape, and its slots, through bind and drive
                    assert forall|k: int|
                        0 <= k < st.handles@.len() implies StatementHandle::slots_preserved(
                        st_pre.handles@[k],
                        #[trigger] st.handles@[k],
                    ) by {
                        StatementHandle::lemma_slots_preserved_trans(
                            st_pre.handles@[k],
                            st_bound.handles@[k],
                            st.handles@[k],
                        );
                    }
                    if old(self).contains_query(query@) {
                        let prev = old(self).statements@[i as int].1;
                        assert forall|k: int|
                            0 <= k < st.handles@.len() implies StatementHandle::slots_preserved(
                            prev.handles@[k],
                            #[trigger] st.handles@[k],
                        ) by {
                            StatementHandle::lemma_slots_preserved_trans(
                                prev.handles@[k],
                                st_pre.handles@[k],
                                st.handles@[k],
                            );
                        }
                    }
                }
                Ok((MaybeOwnedStatement::Borrowed(i), items))
            },
        }
    }
}

/// The first row a multi-statement stream produces, when no failure
/// comes first: the leading row item's values, or nothing when the
/// stream finishes without a row.
pub open spec fn first_row_model(ms: Seq<FetchItemModel>) -> Result<
    Option<Seq<SqliteValueModel>>,
    crate::error::DatabaseErrorModel,
>
    decreases ms.len(),
{
    if ms.len() == 0 {
        Ok(None)
    } else {
        match ms[0] {
            FetchItemModel::Row(vals) => Ok(Some(vals)),
            FetchItemModel::Count(_) => first_row_model(ms.drop_first()),
            FetchItemModel::Failure(e) => Err(e),
        }
    }
}

/// The handle index the first row belongs to: the number of completed
/// statements before it.
pub open spec fn first_row_segment(ms: Seq<FetchItemModel>) -> int
    decreases ms.len(),
{
    if ms.len() == 0 {
        0
    } else {
        match ms[0] {
            FetchItemModel::Count(_) => 1 + first_row_segment(ms.drop_first()),
            _ => 0,
        }
    }
}

impl SqliteConnection {
    /// Executes the query and returns at most one row: the first row
    /// the engine reports, or `None` when the stream finishes without
    /// producing one. The returned location says where the statement
    /// lives; the row stays readable through the handle of the
    /// statement that produced it.
    pub fn fetch_optional(
        &mut self,
        query: &String,
        arguments: Option<&SqliteArguments>,
        compiled: Result<Vec<PreparedStatementInfo>, DatabaseError>,
        events: Vec<Vec<SqliteStepEvent>>,
    ) -> (r: Result<(MaybeOwnedStatement, Option<SqliteRow>), Error>)
        requires
            old(self).wf(),
            vstd::utf8::encode_utf8(query@).len() <= usize::MAX,
            fetch_events_fit(
                *old(self),
                query@,
                arguments is Some,
                compiled,
                events@.len() as int,
            ),
        ensures
            final(self).wf(),
            r matches Err(e) ==> (e@ is Protocol || e@ is Database),
            fetch_many_succeeds(
                *old(self),
                query@,
                match arguments {
                    Some(a) => Some(a.values@.len() as int),
                    None => None,
                },
                compiled,
            ) && !(first_row_model(multi_models(batch_models(events@))) is Err) ==> r is Ok,
            match r {
                Err(_) => true,
                Ok((loc, opt)) => {
                    let st = loc_statement(*final(self), loc);
                    let ms = multi_models(batch_models(events@));
                    &&& fetch_location_post(
                        *old(self),
                        *final(self),
                        query@,
                        arguments is Some,
                        compiled,
                        loc,
                    )
                    &&& match first_row_model(ms) {
                        Ok(Some(vals)) => opt matches Some(row) && {
                            &&& row.snapshot@ == vals
                            &&& 0 <= first_row_segment(ms) < st.handles@.len()
                            &&& row.valid_for(st.handles@[first_row_segment(ms)])
                        },
                        Ok(None) => opt is None,
                        Err(_) => false,
                    }
                },
            },
    {
        let ghost ms = multi_models(batch_models(events@));
        let (loc, items) = match self.fetch_many(query, arguments, compiled, events) {
            Ok(p) => p,
            Err(e) => {
                return Err(e);
            },
        };
        proof {
            lemma_fetch_optional_bridge(items@);
            match first_row_model(out_models(items@)) {
                Ok(Some(_)) => {
                    assert(crate::executor::spec_fetch_optional(items@) matches Ok(o) && o
                        is Some);
                },
                _ => {},
            }
        }
        let opt = match crate::executor::fetch_optional(items) {
            Ok(o) => o,
            Err(e) => {
                return Err(e);
            },
        };
        Ok((loc, opt))
    }
}

/// Bridges a stream's guarantee to the derived at-most-one-row fold:
/// the fold takes exactly the stream's first row item, skipping the
/// counts before it and stopping at an engine failure.
proof fn lemma_fetch_optional_bridge(items: Seq<Result<FetchStep<SqliteRow>, Error>>)
    requires
        forall|j: int|
            0 <= j < items.len() ==> ((#[trigger] items[j]) matches Err(e) ==> e@ is Database),
    ensures
        match first_row_model(out_models(items)) {
            Ok(opt) => crate::executor::spec_fetch_optional(items) matches Ok(o) && (match opt {
                Some(vals) => o matches Some(row) && {
                    &&& row.snapshot@ == vals
                    &&& (exists|j0: int|
                        {
                            &&& 0 <= j0 < items.len()
                            &&& #[trigger] items[j0] == Ok::<FetchStep<SqliteRow>, Error>(
                                FetchStep::Row(row),
                            )
                            &&& counts_before(out_models(items), j0) == first_row_segment(
                                out_models(items),
                            )
                        })
                },
                None => o is None,
            }),
            Err(em) => crate::executor::spec_fetch_optional(items) matches Err(e2) && e2@
                == crate::error::ErrorModel::Database(em),
        },
    decreases items.len(),
{
    let ms = out_models(items);
    if items.len() == 0 {
        assert(ms =~= Seq::<FetchItemModel>::empty());
    } else {
        let rest = items.drop_first();
        assert forall|l: int| 0 <= l < rest.len() implies #[trigger] out_models(rest)[l]
            == ms.drop_first()[l] by {
            assert(rest[l] == items[l + 1]);
        }
        assert(out_models(rest) =~= ms.drop_first());
        match items[0] {
            Ok(FetchStep::Row(row)) => {
                assert(ms[0] == FetchItemModel::Row(row.snapshot@));
                assert(counts_before(ms, 0) == 0);
                assert(first_row_segment(ms) == 0);
            },
            Ok(FetchStep::Count(n)) => {
                assert(ms[0] == FetchItemModel::Count(n));
                lemma_fetch_optional_bridge(rest);
                match first_row_model(out_models(rest)) {
                    Ok(Some(vals)) => {
                        assert(crate::executor::spec_fetch_optional(rest) matches Ok(o) && o
                            is Some);
                        let o = crate::executor::spec_fetch_optional(rest);
                        match o {
                            Ok(Some(row)) => {
                                let j0 = choose|j0: int|
                                    {
                                        &&& 0 <= j0 < rest.len()
                                        &&& #[trigger] rest[j0] == Ok::<
                                            FetchStep<SqliteRow>,
                                            Error,
                                        >(FetchStep::Row(row))
                                        &&& counts_before(out_models(rest), j0)
                                            == first_row_segment(out_models(rest))
                                    };
                                assert(items[j0 + 1] == rest[j0]);
                                lemma_counts_before_step(ms, j0);
                                assert(counts_before(ms, j0 + 1) == 1 + counts_before(
                                    out_models(rest),
                                    j0,
                                ));
                                assert(first_row_segment(ms) == 1 + first_row_segment(
                                    out_models(rest),
                                ));
                            },
                            _ => {},
                        }
                    },
                    _ => {},
                }
            },
            Err(e) => {
                assert(e@ is Database);
            },
        }
    }
}

/// A bind that failed on the served statement's first handle rules out
/// the success condition: the declared parameter count the condition
/// speaks of is exactly the one the bind was checked against.
proof fn lemma_declared_count_mismatch_blocks_success(
    old_c: SqliteConnection,
    q: Seq<char>,
    i: int,
    st0: Statement,
    n: int,
    compiled: Result<Vec<PreparedStatementInfo>, DatabaseError>,
)
    requires
        old_c.wf(),
        st0.handles@.len() > 0,
        n != st0.handles@[0].parameter_count,
        0 <= i,
        old_c.contains_query(q) ==> {
            &&& i < old_c.statements@.len()
            &&& old_c.cache_keys()[i] == q
            &&& reset_from(old_c.statements@[i].1, st0)
        },
        !old_c.contains_query(q) ==> (compiled matches Ok(infos) && prepared_matches(st0, infos@)),
    ensures
        !fetch_many_succeeds(old_c, q, Some(n), compiled),
{
    if fetch_many_succeeds(old_c, q, Some(n), compiled) {
        if old_c.contains_query(q) {
            let j = old_c.cache_index_of(q);
            assert(0 <= j < old_c.cache_keys().len() && old_c.cache_keys()[j] == q);
            if j < i {
                assert(old_c.cache_keys()[j] != old_c.cache_keys()[i]);
            } else if j > i {
                assert(old_c.cache_keys()[i] != old_c.cache_keys()[j]);
            }
            assert(j == i);
            let prev = old_c.statements@[i].1;
            assert(prev.handles@.len() == st0.handles@.len());
            assert(st0.handles@[0].parameter_count == prev.handles@[0].parameter_count);
        }
    }
}

/// The second statement is the first one reset for reuse: same shape,
/// idle, nothing bound, every still-alive row of the previous
/// execution inflated.
pub open spec fn reset_from(a: Statement, b: Statement) -> bool {
    &&& b.wf()
    &&& b.handles@.len() == a.handles@.len()
    &&& (forall|i: int|
        0 <= i < b.handles@.len() ==> {
            &&& (#[trigger] b.handles@[i]).state is Idle
            &&& b.handles@[i].bindings@.len() == 0
            &&& b.handles@[i].last_row is None
            &&& StatementHandle::slots_preserved(a.handles@[i], b.handles@[i])
            &&& b.handles@[i].column_names@ == a.handles@[i].column_names@
            &&& b.handles@[i].parameter_count == a.handles@[i].parameter_count
        })
}

} // verus!
