use crate::dispatch::model::{
    after_reply,
    first_failure,
    initial,
    invalid_before,
    lemma_next_valid,
    next_valid,
    run_from,
    valid_between,
    DeliveryStatus,
    DispatchView,
    OutcomeView,
};
use crate::email_client::SendError;
use vstd::prelude::*;

verus! {

/// `valid_between` holds exactly the usable rows of its range, in ascending
/// order.
pub proof fn lemma_valid_between(valid: Seq<bool>, from: int, upto: int)
    requires
        0 <= from,
        upto <= valid.len(),
    ensures
        forall|row: int|
            #![trigger valid_between(valid, from, upto).contains(row)]
            valid_between(valid, from, upto).contains(row) ==> from <= row < upto && valid[row],
        forall|row: int|
            #![trigger valid[row]]
            from <= row < upto && valid[row] ==> valid_between(valid, from, upto).contains(row),
        forall|i: int, j: int|
            0 <= i < j < valid_between(valid, from, upto).len() ==> valid_between(
                valid,
                from,
                upto,
            )[i] < valid_between(valid, from, upto)[j],
    decreases upto - from,
{
    let all = valid_between(valid, from, upto);
    if upto > from {
        let fewer = valid_between(valid, from, upto - 1);
        lemma_valid_between(valid, from, upto - 1);
        if valid[upto - 1] {
            assert(all == fewer.push(upto - 1));
            assert forall|row: int| #[trigger] all.contains(row) implies from <= row < upto
                && valid[row] by {
                let i = choose|i: int| 0 <= i < all.len() && all[i] == row;
                if i < fewer.len() {
                    assert(fewer[i] == row);
                    assert(fewer.contains(row));
                }
            }
            assert forall|row: int| from <= row < upto && #[trigger] valid[row] implies all.contains(
                row,
            ) by {
                if row == upto - 1 {
                    assert(all[all.len() - 1] == row);
                } else {
                    assert(fewer.contains(row));
                    let i = choose|i: int| 0 <= i < fewer.len() && fewer[i] == row;
                    assert(all[i] == row);
                }
            }
            assert forall|i: int, j: int| 0 <= i < j < all.len() implies all[i] < all[j] by {
                if j == all.len() - 1 {
                    assert(fewer[i] == all[i]);
                    assert(fewer.contains(fewer[i]));
                } else {
                    assert(fewer[i] == all[i] && fewer[j] == all[j]);
                }
            }
        }
    }
}

/// `invalid_before` holds exactly the invalid rows below its bound, in
/// ascending order.
pub proof fn lemma_invalid_before(valid: Seq<bool>, upto: int)
    requires
        upto <= valid.len(),
    ensures
        forall|row: int|
            #![trigger invalid_before(valid, upto).contains(row)]
            invalid_before(valid, upto).contains(row) ==> 0 <= row < upto && !valid[row],
        forall|row: int|
            #![trigger valid[row]]
            0 <= row < upto && !valid[row] ==> invalid_before(valid, upto).contains(row),
        forall|i: int, j: int|
            0 <= i < j < invalid_before(valid, upto).len() ==> invalid_before(valid, upto)[i]
                < invalid_before(valid, upto)[j],
    decreases upto,
{
    let all = invalid_before(valid, upto);
    if upto > 0 {
        let fewer = invalid_before(valid, upto - 1);
        lemma_invalid_before(valid, upto - 1);
        if !valid[upto - 1] {
            assert(all == fewer.push(upto - 1));
            assert forall|row: int| #[trigger] all.contains(row) implies 0 <= row < upto && !valid[row] by {
                let i = choose|i: int| 0 <= i < all.len() && all[i] == row;
                if i < fewer.len() {
                    assert(fewer[i] == row);
                    assert(fewer.contains(row));
                }
            }
            assert forall|row: int| 0 <= row < upto && !#[trigger] valid[row] implies all.contains(
                row,
            ) by {
                if row == upto - 1 {
                    assert(all[all.len() - 1] == row);
                } else {
                    assert(fewer.contains(row));
                    let i = choose|i: int| 0 <= i < fewer.len() && fewer[i] == row;
                    assert(all[i] == row);
                }
            }
            assert forall|i: int, j: int| 0 <= i < j < all.len() implies all[i] < all[j] by {
                if j == all.len() - 1 {
                    assert(fewer[i] == all[i]);
                    assert(fewer.contains(fewer[i]));
                } else {
                    assert(fewer[i] == all[i] && fewer[j] == all[j]);
                }
            }
        }
    }
}

proof fn lemma_valid_between_split(valid: Seq<bool>, from: int, mid: int, upto: int)
    requires
        0 <= from <= mid <= upto <= valid.len(),
    ensures
        valid_between(valid, from, upto) == valid_between(valid, from, mid) + valid_between(
            valid,
            mid,
            upto,
        ),
    decreases upto - mid,
{
    if upto > mid {
        lemma_valid_between_split(valid, from, mid, upto - 1);
        assert(valid_between(valid, from, upto) =~= valid_between(valid, from, mid)
            + valid_between(valid, mid, upto));
    } else {
        assert(valid_between(valid, from, upto) =~= valid_between(valid, from, mid)
            + valid_between(valid, mid, upto));
    }
}

proof fn lemma_valid_between_gap(valid: Seq<bool>, from: int, upto: int)
    requires
        0 <= from <= upto <= valid.len(),
        forall|i: int| from <= i < upto ==> !valid[i],
    ensures
        valid_between(valid, from, upto) == Seq::<int>::empty(),
    decreases upto - from,
{
    if upto > from {
        lemma_valid_between_gap(valid, from, upto - 1);
    }
}

proof fn lemma_first_failure_skips(
    valid: Seq<bool>,
    replies: Seq<Result<(), SendError>>,
    from: int,
    upto: int,
)
    requires
        0 <= from <= upto <= valid.len(),
        forall|i: int| from <= i < upto ==> !(valid[i] && replies[i] is Err),
    ensures
        first_failure(valid, replies, from) == first_failure(valid, replies, upto),
    decreases upto - from,
{
    if from < upto {
        lemma_first_failure_skips(valid, replies, from + 1, upto);
    }
}

/// `first_failure` never goes backwards and never past the end; what it
/// finds is a usable row whose send fails, with no such row before it.
pub proof fn lemma_first_failure(valid: Seq<bool>, replies: Seq<Result<(), SendError>>, from: int)
    requires
        0 <= from <= valid.len(),
    ensures
        from <= first_failure(valid, replies, from) <= valid.len(),
        first_failure(valid, replies, from) < valid.len() ==> valid[first_failure(
            valid,
            replies,
            from,
        )] && replies[first_failure(valid, replies, from)] is Err,
        forall|i: int|
            from <= i < first_failure(valid, replies, from) ==> !(valid[i] && replies[i] is Err),
    decreases valid.len() - from,
{
    if from < valid.len() && !(valid[from] && replies[from] is Err) {
        lemma_first_failure(valid, replies, from + 1);
    }
}

/// The result a run must have when its sends first fail at row `failure`
/// (or never, when `failure` is the length of the list).
pub open spec fn expected_outcome(
    valid: Seq<bool>,
    replies: Seq<Result<(), SendError>>,
    failure: int,
) -> OutcomeView {
    if 0 <= failure < valid.len() {
        OutcomeView {
            status: DeliveryStatus::Aborted(replies[failure]->Err_0),
            skipped: invalid_before(valid, failure),
        }
    } else {
        OutcomeView {
            status: DeliveryStatus::Success,
            skipped: invalid_before(valid, valid.len() as int),
        }
    }
}

/// The row after the last one a run touches when its sends first fail at
/// row `failure`.
pub open spec fn stop(valid: Seq<bool>, failure: int) -> int {
    if 0 <= failure < valid.len() {
        failure + 1
    } else {
        valid.len() as int
    }
}

/// A run that has not failed makes one send for each usable row from its
/// cursor on, in order, up to and including the first row whose send fails,
/// and none after that row. It ends in success when no send fails and is
/// aborted with the first failure otherwise. Invalid rows never stop it:
/// they are passed over and listed in the result.
pub proof fn law_run(s: DispatchView, replies: Seq<Result<(), SendError>>)
    requires
        s.aborted is None,
        0 <= s.cursor <= s.valid.len(),
    ensures
        run_from(s, replies).attempts == valid_between(
            s.valid,
            s.cursor,
            stop(s.valid, first_failure(s.valid, replies, s.cursor)),
        ),
        run_from(s, replies).outcome == expected_outcome(
            s.valid,
            replies,
            first_failure(s.valid, replies, s.cursor),
        ),
    decreases s.valid.len() - s.cursor,
{
    let valid = s.valid;
    let row = next_valid(valid, s.cursor);
    let failure = first_failure(valid, replies, s.cursor);
    lemma_next_valid(valid, s.cursor);
    lemma_first_failure(valid, replies, s.cursor);
    if row < valid.len() {
        let next = after_reply(s, replies[row]);
        lemma_valid_between_gap(valid, s.cursor, row);
        assert(valid_between(valid, s.cursor, row + 1) == seq![row]);
        lemma_first_failure_skips(valid, replies, s.cursor, row);
        match replies[row] {
            Ok(_) => {
                lemma_first_failure_skips(valid, replies, row, row + 1);
                law_run(next, replies);
                lemma_first_failure(valid, replies, row + 1);
                lemma_valid_between_split(valid, s.cursor, row + 1, stop(valid, failure));
            },
            Err(reason) => {
                assert(failure == row);
                assert(run_from(next, replies).attempts == Seq::<int>::empty());
                assert(run_from(s, replies).attempts =~= seq![row]);
            },
        }
    } else {
        lemma_valid_between_gap(valid, s.cursor, valid.len() as int);
        assert(failure == valid.len());
    }
}

proof fn lemma_every_row_is_counted(valid: Seq<bool>, upto: int)
    requires
        0 <= upto <= valid.len(),
    ensures
        valid_between(valid, 0, upto).len() + invalid_before(valid, upto).len() == upto,
    decreases upto,
{
    if upto > 0 {
        lemma_every_row_is_counted(valid, upto - 1);
    }
}

/// When no send fails, the run ends in success whatever the number of
/// invalid rows. It sends once to every usable row of the list, in the
/// order of the list, and to no other; the rows it passed over are exactly
/// the invalid ones; so every row is either sent to or passed over.
pub proof fn law_invalid_rows_are_tolerated(valid: Seq<bool>, replies: Seq<Result<(), SendError>>)
    requires
        replies.len() == valid.len(),
        forall|row: int| 0 <= row < valid.len() && valid[row] ==> replies[row] is Ok,
    ensures
        run_from(initial(valid), replies).outcome.status == DeliveryStatus::Success,
        run_from(initial(valid), replies).attempts == valid_between(
            valid,
            0,
            valid.len() as int,
        ),
        run_from(initial(valid), replies).outcome.skipped == invalid_before(
            valid,
            valid.len() as int,
        ),
        forall|row: int|
            0 <= row < valid.len() ==> (#[trigger] valid[row] <==> run_from(
                initial(valid),
                replies,
            ).attempts.contains(row)),
        forall|row: int|
            0 <= row < valid.len() ==> (!#[trigger] valid[row] <==> run_from(
                initial(valid),
                replies,
            ).outcome.skipped.contains(row)),
        run_from(initial(valid), replies).attempts.len() + run_from(
            initial(valid),
            replies,
        ).outcome.skipped.len() == valid.len(),
{
    law_run(initial(valid), replies);
    lemma_first_failure(valid, replies, 0);
    lemma_valid_between(valid, 0, valid.len() as int);
    lemma_invalid_before(valid, valid.len() as int);
    lemma_every_row_is_counted(valid, valid.len() as int);
}

/// When the send for row `failed` is the first one to fail, the run is
/// aborted with that failure, the sends made are those for the usable rows
/// up to and including `failed`, and no send is made for any later row.
pub proof fn law_failure_aborts(
    valid: Seq<bool>,
    replies: Seq<Result<(), SendError>>,
    failed: int,
    reason: SendError,
)
    requires
        replies.len() == valid.len(),
        0 <= failed < valid.len(),
        valid[failed],
        replies[failed] == Err::<(), SendError>(reason),
        forall|row: int| 0 <= row < failed && valid[row] ==> replies[row] is Ok,
    ensures
        run_from(initial(valid), replies).attempts == valid_between(valid, 0, failed + 1),
        run_from(initial(valid), replies).outcome.status == DeliveryStatus::Aborted(reason),
        run_from(initial(valid), replies).outcome.skipped == invalid_before(valid, failed),
        forall|row: int| #[trigger]
            run_from(initial(valid), replies).attempts.contains(row) ==> row <= failed,
{
    law_run(initial(valid), replies);
    lemma_first_failure(valid, replies, 0);
    lemma_valid_between(valid, 0, failed + 1);
}

} // verus!
