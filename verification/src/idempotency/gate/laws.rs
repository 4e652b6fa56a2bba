use crate::idempotency::gate::model::{
    abandonments,
    admissions,
    after_abandon,
    after_begin,
    apply,
    apply_all,
    begin_outcome,
    held,
    in_progress_check,
    BeginView,
    GateOp,
    GateView,
    RecordName,
    StateView,
};
use crate::idempotency::response::ResponseView;
use vstd::prelude::*;

verus! {

/// A record moves only forwards: from absent to in progress by an attempt,
/// from in progress to completed by finishing or back to absent by giving
/// up, and a completed record never changes again. An operation under
/// another name changes nothing under this one.
pub proof fn law_record_lifecycle(gate: GateView, op: GateOp, name: RecordName)
    ensures
        match held(gate, name) {
            None => held(apply(gate, op), name) == if op == GateOp::Begin(name) {
                Some(StateView::InProgress)
            } else {
                None::<StateView>
            },
            Some(StateView::InProgress) => held(apply(gate, op), name) == match op {
                GateOp::Complete(target, response) if target == name => Some(
                    StateView::Completed(response),
                ),
                GateOp::Abandon(target) if target == name => None::<StateView>,
                _ => Some(StateView::InProgress),
            },
            Some(StateView::Completed(response)) => held(apply(gate, op), name) == Some(
                StateView::Completed(response),
            ),
        },
{
}

/// Once the record under `name` is completed with a response, it stays so
/// whatever operations follow, and every later attempt under `name` is
/// answered with that very response.
pub proof fn law_replay(gate: GateView, name: RecordName, response: ResponseView, ops: Seq<GateOp>)
    requires
        held(gate, name) == Some(StateView::Completed(response)),
    ensures
        held(apply_all(gate, ops), name) == Some(StateView::Completed(response)),
        begin_outcome(apply_all(gate, ops), name) == BeginView::Replay(response),
        after_begin(apply_all(gate, ops), name) == apply_all(gate, ops),
        admissions(gate, ops, name) == 0,
    decreases ops.len(),
{
    if ops.len() > 0 {
        law_replay(gate, name, response, ops.drop_last());
        law_record_lifecycle(apply_all(gate, ops.drop_last()), ops.last(), name);
    }
}

/// While nobody gives up the attempt under `name`, a gate that holds a
/// record under `name` keeps one and admits no attempt under `name`.
pub proof fn law_no_second_admission(gate: GateView, ops: Seq<GateOp>, name: RecordName)
    requires
        held(gate, name) is Some,
        forall|i: int| 0 <= i < ops.len() ==> ops[i] != GateOp::Abandon(name),
    ensures
        held(apply_all(gate, ops), name) is Some,
        admissions(gate, ops, name) == 0,
    decreases ops.len(),
{
    if ops.len() > 0 {
        law_no_second_admission(gate, ops.drop_last(), name);
        law_record_lifecycle(apply_all(gate, ops.drop_last()), ops.last(), name);
    }
}

/// Whatever is held already and however many attempts are made under `name`,
/// in whatever order with other operations: while nobody gives up the
/// attempt under `name`, at most one of them is admitted.
pub proof fn law_at_most_one_admission(gate: GateView, ops: Seq<GateOp>, name: RecordName)
    requires
        forall|i: int| 0 <= i < ops.len() ==> ops[i] != GateOp::Abandon(name),
    ensures
        admissions(gate, ops, name) <= 1,
        admissions(gate, ops, name) == 1 ==> held(gate, name) is None && held(
            apply_all(gate, ops),
            name,
        ) is Some,
    decreases ops.len(),
{
    if ops.len() > 0 {
        let earlier = ops.drop_last();
        let before = apply_all(gate, earlier);
        law_at_most_one_admission(gate, earlier, name);
        law_record_lifecycle(before, ops.last(), name);
        if held(gate, name) is Some {
            law_no_second_admission(gate, earlier, name);
        }
    }
}

/// In any run of operations, an attempt under `name` is admitted at most
/// once more than attempts under `name` were given up: every admission but
/// the first follows a record given up.
pub proof fn law_admissions_follow_abandonments(gate: GateView, ops: Seq<GateOp>, name: RecordName)
    ensures
        admissions(gate, ops, name) + (if held(apply_all(gate, ops), name) is None {
            1nat
        } else {
            0nat
        }) <= abandonments(ops, name) + (if held(gate, name) is None {
            1nat
        } else {
            0nat
        }),
        admissions(gate, ops, name) <= abandonments(ops, name) + 1,
    decreases ops.len(),
{
    if ops.len() > 0 {
        law_admissions_follow_abandonments(gate, ops.drop_last(), name);
        law_record_lifecycle(apply_all(gate, ops.drop_last()), ops.last(), name);
    }
}

/// Giving up an attempt in progress makes room for a retry: the next
/// attempt under the same name is admitted.
pub proof fn law_abandon_readmits(gate: GateView, name: RecordName)
    requires
        in_progress_check(gate, name) is Ok,
    ensures
        begin_outcome(after_abandon(gate, name), name) is Admitted,
{
}

} // verus!
