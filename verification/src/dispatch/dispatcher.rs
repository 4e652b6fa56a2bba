use crate::dispatch::model::{
    after_reply,
    initial,
    invalid_before,
    lemma_next_valid,
    next_valid,
    pending,
    ActionView,
    DeliveryStatus,
    DispatchView,
    OutcomeView,
};
use crate::dispatch::rows::ConfirmedSubscriber;
use crate::domain::SubscriberEmail;
use crate::email_client::SendError;
use vstd::prelude::*;

verus! {

/// Which rows of a list hold a usable address.
pub open spec fn validity(rows: Seq<Result<ConfirmedSubscriber, String>>) -> Seq<bool> {
    Seq::new(rows.len(), |i: int| rows[i] is Ok)
}

/// The result of one run: how it ended, and which rows were passed over
/// because their stored contact detail was invalid.
#[derive(Debug, PartialEq, Eq)]
pub struct DeliveryOutcome {
    pub status: DeliveryStatus,
    /// Positions of the passed-over rows in the list, ascending.
    pub skipped: Vec<usize>,
}

impl View for DeliveryOutcome {
    type V = OutcomeView;

    open spec fn view(&self) -> OutcomeView {
        OutcomeView {
            status: self.status,
            skipped: Seq::new(self.skipped.len() as nat, |i: int| self.skipped[i] as int),
        }
    }
}

/// What the driver of a run has to do next.
#[derive(Debug, PartialEq, Eq)]
pub enum DispatchAction {
    /// Send the issue to `recipient`, the subscriber in row `row`, and report
    /// what came back.
    Send { row: usize, recipient: SubscriberEmail },
    /// Nothing more to do; this is the result.
    Done(DeliveryOutcome),
}

impl View for DispatchAction {
    type V = ActionView;

    open spec fn view(&self) -> ActionView {
        match self {
            DispatchAction::Send { row, .. } => ActionView::Send(*row as int),
            DispatchAction::Done(outcome) => ActionView::Done(outcome@),
        }
    }
}

/// One run over the confirmed subscribers: the decisions of the fan-out,
/// with the sending left to the driver.
///
/// The driver asks for the [`action`](Self::action), performs a send when
/// one is asked for, hands the transport's answer to
/// [`record`](Self::record), and goes on until the action is `Done`.
#[derive(Debug)]
pub struct FanOutDispatcher {
    rows: Vec<Result<ConfirmedSubscriber, String>>,
    cursor: usize,
    aborted: Option<SendError>,
}

impl View for FanOutDispatcher {
    type V = DispatchView;

    closed spec fn view(&self) -> DispatchView {
        DispatchView {
            valid: validity(self.rows@),
            cursor: self.cursor as int,
            aborted: self.aborted,
        }
    }
}

impl FanOutDispatcher {
    #[verifier::type_invariant]
    closed spec fn well_formed(&self) -> bool {
        self.cursor <= self.rows.len()
    }

    /// The list this run goes over.
    pub closed spec fn rows(&self) -> Seq<Result<ConfirmedSubscriber, String>> {
        self.rows@
    }

    /// A run over `rows` that has not sent anything yet.
    pub fn new(rows: Vec<Result<ConfirmedSubscriber, String>>) -> (run: Self)
        ensures
            run.rows() == rows@,
            run@ == initial(validity(rows@)),
    {
        FanOutDispatcher { rows, cursor: 0, aborted: None }
    }

    /// How many rows the list has.
    pub fn len(&self) -> (n: usize)
        ensures
            n == self.rows().len(),
            self@.valid.len() == n,
    {
        self.rows.len()
    }

    /// The refusal stored in row `row`, when that row is invalid.
    pub fn skip_reason(&self, row: usize) -> (why: Option<&String>)
        ensures
            match why {
                Some(text) => row < self.rows().len() && self.rows()[row as int] == Err::<
                    ConfirmedSubscriber,
                    String,
                >(*text),
                None => row >= self.rows().len() || self.rows()[row as int] is Ok,
            },
    {
        if row < self.rows.len() {
            match &self.rows[row] {
                Ok(_) => None,
                Err(why) => Some(why),
            }
        } else {
            None
        }
    }

    fn find_next(&self) -> (row: usize)
        ensures
            row == next_valid(self@.valid, self@.cursor),
            self@.cursor <= row <= self.rows().len(),
            row < self.rows().len() ==> self.rows()[row as int] is Ok,
    {
        proof {
            use_type_invariant(self);
            lemma_next_valid(self@.valid, self@.cursor);
        }
        let ghost valid = self@.valid;
        let mut row = self.cursor;
        while row < self.rows.len() && self.rows[row].is_err()
            invariant
                self.cursor <= row <= self.rows.len(),
                valid == validity(self.rows@),
                next_valid(valid, row as int) == next_valid(valid, self.cursor as int),
            decreases self.rows.len() - row,
        {
            row += 1;
        }
        row
    }

    fn invalid_rows(&self, upto: usize) -> (skipped: Vec<usize>)
        requires
            upto <= self.rows().len(),
        ensures
            Seq::new(skipped.len() as nat, |i: int| skipped[i] as int) == invalid_before(
                self@.valid,
                upto as int,
            ),
    {
        let ghost valid = self@.valid;
        let mut skipped: Vec<usize> = Vec::new();
        let mut i: usize = 0;
        while i < upto
            invariant
                i <= upto <= self.rows.len(),
                valid == validity(self.rows@),
                Seq::new(skipped.len() as nat, |k: int| skipped[k] as int) == invalid_before(
                    valid,
                    i as int,
                ),
            decreases upto - i,
        {
            let ghost before = Seq::new(skipped.len() as nat, |k: int| skipped[k] as int);
            if self.rows[i].is_err() {
                skipped.push(i);
                assert(Seq::new(skipped.len() as nat, |k: int| skipped[k] as int) =~= before.push(
                    i as int,
                ));
            }
            i += 1;
        }
        skipped
    }

    /// What has to be done next: [`pending`] of the run's state. A `Send`
    /// names a row that holds a usable address, and carries that address.
    pub fn action(&self) -> (next: DispatchAction)
        ensures
            next@ == pending(self@),
            match next {
                DispatchAction::Send { row, recipient } => {
                    &&& row < self.rows().len()
                    &&& self.rows()[row as int] matches Ok(subscriber)
                    &&& recipient@ == subscriber.email@
                },
                DispatchAction::Done(_) => true,
            },
    {
        proof {
            use_type_invariant(self);
        }
        match self.aborted {
            Some(reason) => DispatchAction::Done(
                DeliveryOutcome {
                    status: DeliveryStatus::Aborted(reason),
                    skipped: self.invalid_rows(self.cursor),
                },
            ),
            None => {
                let row = self.find_next();
                if row < self.rows.len() {
                    match &self.rows[row] {
                        Ok(subscriber) => DispatchAction::Send {
                            row,
                            recipient: subscriber.email.clone(),
                        },
                        Err(_) => {
                            proof {
                                assert(false);
                            }
                            DispatchAction::Done(
                                DeliveryOutcome {
                                    status: DeliveryStatus::Success,
                                    skipped: Vec::new(),
                                },
                            )
                        },
                    }
                } else {
                    DispatchAction::Done(
                        DeliveryOutcome {
                            status: DeliveryStatus::Success,
                            skipped: self.invalid_rows(self.rows.len()),
                        },
                    )
                }
            },
        }
    }

    /// Takes the transport's answer to the pending send: the state becomes
    /// [`after_reply`] of the state before. The list itself never changes.
    pub fn record(&mut self, reply: Result<(), SendError>)
        ensures
            final(self)@ == after_reply(old(self)@, reply),
            final(self).rows() == old(self).rows(),
    {
        proof {
            use_type_invariant(&*self);
        }
        if self.aborted.is_none() {
            let row = self.find_next();
            if row < self.rows.len() {
                match reply {
                    Ok(_) => {
                        self.cursor = row + 1;
                    },
                    Err(reason) => {
                        self.cursor = row;
                        self.aborted = Some(reason);
                    },
                }
            }
        }
    }
}

} // verus!
