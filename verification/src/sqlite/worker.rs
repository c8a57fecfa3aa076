//! The statement worker: every invocation of the native "advance
//! cursor" primitive for one connection is serialized through it.
//!
//! The handshake is an explicit state machine over a status register:
//! the requesting side deposits a step request (the pending state), the
//! stepping side runs the native call and deposits its raw status code,
//! and the requesting side collects it. The contracts guarantee that
//! only one stepping call is ever in flight per worker.

use vstd::prelude::*;
use crate::error::DatabaseError;

verus! {

/// The raw status the native step call reports when a record is ready.
pub const STEP_ROW: i32 = 100;

/// The raw status the native step call reports at the end of results.
pub const STEP_DONE: i32 = 101;

/// The handshake state of the worker's status register.
#[derive(Clone, Copy, Debug, PartialEq, Eq, Structural)]
pub enum WorkerState {
    /// Parked between statements, nothing in flight.
    Parked,
    /// A statement has been handed off and may be stepped.
    Engaged,
    /// A step request is pending; the stepping side owns the register.
    StepPending,
    /// The stepping side deposited a raw status code.
    Finished(i32),
}

/// The model of one connection's statement worker.
pub struct StatementWorker {
    pub state: WorkerState,
}

/// The interpreted outcome of one step.
pub enum StepOutcome {
    /// A record is ready to be read from the statement.
    RowFound,
    /// The end of results, with the final affected-row count.
    Done(u64),
}

impl StatementWorker {
    /// A fresh worker, parked until a statement is handed off.
    pub fn new() -> (r: Self)
        ensures
            r.state is Parked,
    {
        StatementWorker { state: WorkerState::Parked }
    }

    /// Hands a statement off to the worker to begin or resume
    /// stepping.
    pub fn execute(&mut self)
        requires
            !(old(self).state is StepPending),
        ensures
            final(self).state is Engaged,
    {
        self.state = WorkerState::Engaged;
    }

    /// Issues a step request. Only one stepping call may be in flight:
    /// the worker must not already hold a pending request.
    pub fn request_step(&mut self)
        requires
            old(self).state is Engaged,
        ensures
            final(self).state is StepPending,
    {
        self.state = WorkerState::StepPending;
    }

    /// The stepping side deposits the raw status of the native call.
    /// A zero status would be mistaken for a pending request and is
    /// never produced by the native call.
    pub fn complete_step(&mut self, status: i32)
        requires
            old(self).state is StepPending,
            status != 0,
        ensures
            final(self).state == WorkerState::Finished(status),
    {
        self.state = WorkerState::Finished(status);
    }

    /// The requesting side collects the deposited status: at the end
    /// of results the worker parks, otherwise it stays engaged for the
    /// next request.
    pub fn collect_status(&mut self) -> (r: i32)
        requires
            old(self).state matches WorkerState::Finished(_),
        ensures
            old(self).state == WorkerState::Finished(r),
            r == STEP_DONE ==> final(self).state is Parked,
            r != STEP_DONE ==> final(self).state is Engaged,
    {
        let status = match self.state {
            WorkerState::Finished(s) => s,
            _ => 0,  // unreachable under the precondition
        };
        if status == STEP_DONE {
            self.state = WorkerState::Parked;
        } else {
            self.state = WorkerState::Engaged;
        }
        status
    }
}

/// Interprets the raw status of one native step call: a record found,
/// the end of results with the statement's affected-row count, or the
/// engine's error surfaced verbatim.
pub fn interpret_step_status(status: i32, changes: u64, message: String) -> (r: Result<
    StepOutcome,
    DatabaseError,
>)
    ensures
        status == STEP_ROW ==> (r matches Ok(o) && o is RowFound),
        status == STEP_DONE ==> (r matches Ok(o) && o == StepOutcome::Done(changes)),
        status != STEP_ROW && status != STEP_DONE ==> (r matches Err(e) && e.code == status
            && e.message@ == message@),
{
    if status == STEP_ROW {
        Ok(StepOutcome::RowFound)
    } else if status == STEP_DONE {
        Ok(StepOutcome::Done(changes))
    } else {
        Err(DatabaseError { message, code: status })
    }
}

} // verus!
