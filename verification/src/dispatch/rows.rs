use crate::domain::subscriber_email::{email_is_valid, rejection_message};
use crate::domain::SubscriberEmail;
use vstd::prelude::*;

verus! {

/// A subscriber who completed the confirmation step.
#[derive(Debug, PartialEq, Eq)]
pub struct ConfirmedSubscriber {
    pub email: SubscriberEmail,
}

/// How a stored contact detail `raw` relates to the row made from it: a
/// subscriber with that very address when the address is valid, and the
/// refusal of the address otherwise.
pub open spec fn row_matches(raw: Seq<char>, row: Result<ConfirmedSubscriber, String>) -> bool {
    match row {
        Ok(subscriber) => email_is_valid(raw) && subscriber.email@ == raw,
        Err(why) => !email_is_valid(raw) && why@ == rejection_message(raw),
    }
}

/// Turns the stored contact details of the confirmed subscribers into rows,
/// one per detail and in the same order. A detail that is no valid address
/// becomes an `Err` row; it does not stop the others.
pub fn confirmed_subscribers(emails: Vec<String>) -> (rows: Vec<
    Result<ConfirmedSubscriber, String>,
>)
    ensures
        rows.len() == emails.len(),
        forall|i: int| 0 <= i < emails.len() ==> row_matches(#[trigger] emails[i]@, rows[i]),
{
    let mut rows: Vec<Result<ConfirmedSubscriber, String>> = Vec::new();
    let mut i: usize = 0;
    while i < emails.len()
        invariant
            i <= emails.len(),
            rows.len() == i,
            forall|k: int| 0 <= k < i ==> row_matches(#[trigger] emails[k]@, rows[k]),
        decreases emails.len() - i,
    {
        let row = match SubscriberEmail::parse(emails[i].clone()) {
            Ok(email) => Ok(ConfirmedSubscriber { email }),
            Err(why) => Err(why),
        };
        rows.push(row);
        i += 1;
    }
    rows
}

} // verus!
