use crate::idempotency::response::{ResponseView, SavedResponse};
use vstd::prelude::*;

verus! {

/// Where a record stands in its life.
#[derive(Debug, PartialEq, Eq)]
pub enum RecordState {
    /// An attempt was admitted and has not finished.
    InProgress,
    /// The action finished; this is the response to replay.
    Completed(SavedResponse),
}

/// A [`RecordState`] as plain values.
pub enum StateView {
    InProgress,
    Completed(ResponseView),
}

impl View for RecordState {
    type V = StateView;

    open spec fn view(&self) -> StateView {
        match self {
            RecordState::InProgress => StateView::InProgress,
            RecordState::Completed(response) => StateView::Completed(response@),
        }
    }
}

impl Clone for RecordState {
    fn clone(&self) -> (copy: Self)
        ensures
            copy@ == self@,
    {
        match self {
            RecordState::InProgress => RecordState::InProgress,
            RecordState::Completed(response) => RecordState::Completed(response.clone()),
        }
    }
}

/// What a record is filed under: the caller's identity and the key's text.
pub type RecordName = (u128, Seq<char>);

/// The records of a gate as plain values: at most one state per caller and
/// key.
pub type GateView = Map<RecordName, StateView>;

/// The answer to an attempt.
#[derive(Debug, PartialEq, Eq)]
pub enum BeginOutcome {
    /// No record existed; one was created and the caller is the sole executor.
    Admitted,
    /// The action finished before; this is its response, to be returned as it is.
    Replay(SavedResponse),
    /// Another attempt is in flight, or one ended without finishing.
    Conflict,
}

/// A [`BeginOutcome`] as plain values.
pub enum BeginView {
    Admitted,
    Replay(ResponseView),
    Conflict,
}

impl View for BeginOutcome {
    type V = BeginView;

    open spec fn view(&self) -> BeginView {
        match self {
            BeginOutcome::Admitted => BeginView::Admitted,
            BeginOutcome::Replay(response) => BeginView::Replay(response@),
            BeginOutcome::Conflict => BeginView::Conflict,
        }
    }
}

/// Why a record could not be finished or given up.
#[derive(Debug, Clone, Copy, PartialEq, Eq, Structural)]
pub enum GateError {
    /// No record exists under that caller and key.
    NotAdmitted,
    /// The record is completed already; it stays as it is.
    AlreadyCompleted,
}

/// The answer to an attempt, given what is held under the
/// attempt's name: nothing, an unfinished record, or a completed one.
pub open spec fn outcome_for(held: Option<StateView>) -> BeginView {
    match held {
        None => BeginView::Admitted,
        Some(StateView::InProgress) => BeginView::Conflict,
        Some(StateView::Completed(response)) => BeginView::Replay(response),
    }
}

/// What a gate holds under a name.
pub open spec fn held(gate: GateView, name: RecordName) -> Option<StateView> {
    if gate.dom().contains(name) {
        Some(gate[name])
    } else {
        None
    }
}

/// The answer of `gate` to an attempt under `name`.
pub open spec fn begin_outcome(gate: GateView, name: RecordName) -> BeginView {
    outcome_for(held(gate, name))
}

/// The records after an attempt under `name`: a fresh name gets a record in
/// progress, anything else leaves them as they were.
pub open spec fn after_begin(gate: GateView, name: RecordName) -> GateView {
    if gate.dom().contains(name) {
        gate
    } else {
        gate.insert(name, StateView::InProgress)
    }
}

/// Whether `gate` lets the record under `name` be finished or given up.
pub open spec fn in_progress_check(gate: GateView, name: RecordName) -> Result<(), GateError> {
    match held(gate, name) {
        None => Err(GateError::NotAdmitted),
        Some(StateView::InProgress) => Ok(()),
        Some(StateView::Completed(_)) => Err(GateError::AlreadyCompleted),
    }
}

/// The records after the action under `name` finished with `response`: a
/// record in progress becomes completed with that response, anything else
/// leaves them as they were.
pub open spec fn after_complete(
    gate: GateView,
    name: RecordName,
    response: ResponseView,
) -> GateView {
    if in_progress_check(gate, name) is Ok {
        gate.insert(name, StateView::Completed(response))
    } else {
        gate
    }
}

/// The records after the attempt under `name` was given up: a record in
/// progress is removed, anything else leaves them as they were.
pub open spec fn after_abandon(gate: GateView, name: RecordName) -> GateView {
    if in_progress_check(gate, name) is Ok {
        gate.remove(name)
    } else {
        gate
    }
}

/// One operation on a gate, as plain values.
pub enum GateOp {
    /// An attempt under a name.
    Begin(RecordName),
    /// The action under a name finished with a response.
    Complete(RecordName, ResponseView),
    /// The attempt under a name was given up.
    Abandon(RecordName),
}

/// The records after one operation.
pub open spec fn apply(gate: GateView, op: GateOp) -> GateView {
    match op {
        GateOp::Begin(name) => after_begin(gate, name),
        GateOp::Complete(name, response) => after_complete(gate, name, response),
        GateOp::Abandon(name) => after_abandon(gate, name),
    }
}

/// The records after the operations `ops`, in their order.
pub open spec fn apply_all(gate: GateView, ops: Seq<GateOp>) -> GateView
    decreases ops.len(),
{
    if ops.len() == 0 {
        gate
    } else {
        apply(apply_all(gate, ops.drop_last()), ops.last())
    }
}

/// How many of the operations `ops`, run in their order from `gate`, are
/// attempts under `name` that are admitted.
pub open spec fn admissions(gate: GateView, ops: Seq<GateOp>, name: RecordName) -> nat
    decreases ops.len(),
{
    if ops.len() == 0 {
        0
    } else {
        let earlier = admissions(gate, ops.drop_last(), name);
        let before = apply_all(gate, ops.drop_last());
        if ops.last() == GateOp::Begin(name) && begin_outcome(before, name) is Admitted {
            earlier + 1
        } else {
            earlier
        }
    }
}

/// How many of the operations `ops` give up the attempt under `name`.
pub open spec fn abandonments(ops: Seq<GateOp>, name: RecordName) -> nat
    decreases ops.len(),
{
    if ops.len() == 0 {
        0
    } else if ops.last() == GateOp::Abandon(name) {
        abandonments(ops.drop_last(), name) + 1
    } else {
        abandonments(ops.drop_last(), name)
    }
}

/// The answer to an attempt against a record store that creates records
/// only where none exists. `inserted` says whether the store created the
/// record for this attempt; `found` is what it held when it did not. A store
/// that neither created a record nor holds one any more lost it to another
/// caller in between, and the attempt is told to come back later.
pub open spec fn store_outcome(inserted: bool, found: Option<StateView>) -> BeginView {
    if inserted {
        BeginView::Admitted
    } else {
        match found {
            Some(state) => outcome_for(Some(state)),
            None => BeginView::Conflict,
        }
    }
}

/// Decides the answer to an attempt from what the record store did and
/// holds: [`store_outcome`].
pub fn decide_begin(inserted: bool, found: Option<RecordState>) -> (outcome: BeginOutcome)
    ensures
        outcome@ == store_outcome(
            inserted,
            match found {
                Some(state) => Some(state@),
                None => None,
            },
        ),
{
    if inserted {
        BeginOutcome::Admitted
    } else {
        match found {
            Some(RecordState::Completed(response)) => BeginOutcome::Replay(response),
            _ => BeginOutcome::Conflict,
        }
    }
}

} // verus!
