use crate::email_client::SendError;
use vstd::prelude::*;

verus! {

/// How one run over the list ended.
#[derive(Debug, Clone, Copy, PartialEq, Eq, Structural)]
pub enum DeliveryStatus {
    /// Every row was handled and no send failed.
    Success,
    /// A send failed; the rows after it were not touched.
    Aborted(SendError),
}

/// A [`DeliveryOutcome`] as plain values.
pub struct OutcomeView {
    pub status: DeliveryStatus,
    pub skipped: Seq<int>,
}

/// The first position at or after `from` that holds a usable address, or the
/// length of the list when there is none.
pub open spec fn next_valid(valid: Seq<bool>, from: int) -> int
    decreases valid.len() - from,
{
    if from < 0 || from >= valid.len() {
        valid.len() as int
    } else if valid[from] {
        from
    } else {
        next_valid(valid, from + 1)
    }
}

/// The positions below `upto` whose rows are invalid, ascending.
pub open spec fn invalid_before(valid: Seq<bool>, upto: int) -> Seq<int>
    decreases upto,
{
    if upto <= 0 {
        Seq::empty()
    } else if upto <= valid.len() && !valid[upto - 1] {
        invalid_before(valid, upto - 1).push(upto - 1)
    } else {
        invalid_before(valid, upto - 1)
    }
}

/// The positions from `from` up to but not including `upto` whose rows hold
/// a usable address, ascending.
pub open spec fn valid_between(valid: Seq<bool>, from: int, upto: int) -> Seq<int>
    decreases upto - from,
{
    if upto <= from || from < 0 {
        Seq::empty()
    } else if upto <= valid.len() && valid[upto - 1] {
        valid_between(valid, from, upto - 1).push(upto - 1)
    } else {
        valid_between(valid, from, upto - 1)
    }
}

/// The state of a run as plain values.
pub struct DispatchView {
    /// Which rows hold a usable address.
    pub valid: Seq<bool>,
    /// Every row below this position has been dealt with.
    pub cursor: int,
    /// The failure that ended the run, if one did.
    pub aborted: Option<SendError>,
}

/// What the driver of a run has to do next, as plain values.
pub enum ActionView {
    /// Send the issue to the subscriber in this row and report what came back.
    Send(int),
    /// Nothing more to do; this is the result.
    Done(OutcomeView),
}

/// The state before anything was sent.
pub open spec fn initial(valid: Seq<bool>) -> DispatchView {
    DispatchView { valid, cursor: 0, aborted: None }
}

/// What a run in state `s` asks for. After a failure: nothing, the run is
/// over, and the rows passed over are the invalid ones before the row that
/// failed. Otherwise: a send to the next usable row, and when there is none
/// left, success, with every invalid row of the list passed over.
pub open spec fn pending(s: DispatchView) -> ActionView {
    match s.aborted {
        Some(reason) => ActionView::Done(
            OutcomeView {
                status: DeliveryStatus::Aborted(reason),
                skipped: invalid_before(s.valid, s.cursor),
            },
        ),
        None => {
            let row = next_valid(s.valid, s.cursor);
            if row < s.valid.len() {
                ActionView::Send(row)
            } else {
                ActionView::Done(
                    OutcomeView {
                        status: DeliveryStatus::Success,
                        skipped: invalid_before(s.valid, s.valid.len() as int),
                    },
                )
            }
        },
    }
}

/// The state after the transport's answer to the pending send. A success
/// moves on past the row; a failure ends the run at the row. When no send is
/// pending the answer changes nothing.
pub open spec fn after_reply(s: DispatchView, reply: Result<(), SendError>) -> DispatchView {
    match pending(s) {
        ActionView::Send(row) => match reply {
            Ok(_) => DispatchView { cursor: row + 1, ..s },
            Err(reason) => DispatchView { cursor: row, aborted: Some(reason), ..s },
        },
        ActionView::Done(_) => s,
    }
}

/// `next_valid` never goes backwards and never past the end, and what it
/// finds is a usable row with none before it.
pub proof fn lemma_next_valid(valid: Seq<bool>, from: int)
    requires
        0 <= from <= valid.len(),
    ensures
        from <= next_valid(valid, from) <= valid.len(),
        next_valid(valid, from) < valid.len() ==> valid[next_valid(valid, from)],
        forall|i: int| from <= i < next_valid(valid, from) ==> !valid[i],
    decreases valid.len() - from,
{
    if from < valid.len() && !valid[from] {
        lemma_next_valid(valid, from + 1);
    }
}

/// A whole run as plain values: the rows that a send was made for, in the
/// order of the sends, and the result.
pub struct RunView {
    pub attempts: Seq<int>,
    pub outcome: OutcomeView,
}

/// The run that starts in state `s` and goes on to its end, when the
/// transport answers a send for row `row` with `replies[row]`.
pub open spec fn run_from(s: DispatchView, replies: Seq<Result<(), SendError>>) -> RunView
    decreases (if s.aborted is None { 1int } else { 0int }), s.valid.len() - s.cursor,
{
    match pending(s) {
        ActionView::Send(row) => {
            proof {
                lemma_next_valid(s.valid, s.cursor);
            }
            let rest = run_from(after_reply(s, replies[row]), replies);
            RunView { attempts: seq![row] + rest.attempts, outcome: rest.outcome }
        },
        ActionView::Done(outcome) => RunView { attempts: Seq::empty(), outcome },
    }
}

/// The first usable row at or after `from` whose send fails, or the length
/// of the list when there is none.
pub open spec fn first_failure(
    valid: Seq<bool>,
    replies: Seq<Result<(), SendError>>,
    from: int,
) -> int
    decreases valid.len() - from,
{
    if from < 0 || from >= valid.len() {
        valid.len() as int
    } else if valid[from] && replies[from] is Err {
        from
    } else {
        first_failure(valid, replies, from + 1)
    }
}

} // verus!
