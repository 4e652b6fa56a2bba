use newsletter::dispatch::{
    confirmed_subscribers, ConfirmedSubscriber, DeliveryOutcome, DeliveryStatus, DispatchAction,
    FanOutDispatcher,
};
use newsletter::domain::SubscriberEmail;
use newsletter::email_client::SendError;

fn rows_from(emails: &[&str]) -> Vec<Result<ConfirmedSubscriber, String>> {
    confirmed_subscribers(emails.iter().map(|e| e.to_string()).collect())
}

/// Drives a run to its end. `reply` answers each send; the recipients of the
/// sends are returned in their order, with the rows they stand in.
fn drive_run(
    rows: Vec<Result<ConfirmedSubscriber, String>>,
    reply: &mut dyn FnMut(usize, &str) -> Result<(), SendError>,
) -> (Vec<(usize, String)>, DeliveryOutcome) {
    let mut run = FanOutDispatcher::new(rows);
    let mut sent = Vec::new();
    loop {
        match run.action() {
            DispatchAction::Send { row, recipient } => {
                sent.push((row, recipient.to_string()));
                assert!(sent.len() <= run.len(), "more sends than rows");
                let answer = reply(row, recipient.as_ref());
                run.record(answer);
            }
            DispatchAction::Done(outcome) => return (sent, outcome),
        }
    }
}

#[test]
fn rows_keep_order_and_mark_invalid_details() {
    let rows = rows_from(&["a@x.com", "not-an-email", "b@x.com", ""]);
    assert_eq!(rows.len(), 4);
    assert_eq!(
        rows[0],
        Ok(ConfirmedSubscriber { email: SubscriberEmail::parse("a@x.com".to_string()).unwrap() })
    );
    assert_eq!(rows[1], Err("not-an-email is not a valid subscriber email".to_string()));
    assert_eq!(
        rows[2],
        Ok(ConfirmedSubscriber { email: SubscriberEmail::parse("b@x.com".to_string()).unwrap() })
    );
    assert_eq!(rows[3], Err(" is not a valid subscriber email".to_string()));
    assert!(rows_from(&[]).is_empty());
}

#[test]
fn one_invalid_row_among_valid_ones_is_skipped() {
    let rows = rows_from(&["a@x.com", "b@x.com", "corrupt", "c@x.com", "d@x.com"]);
    let (sent, outcome) = drive_run(rows, &mut |_, _| Ok(()));
    assert_eq!(
        sent,
        vec![
            (0, "a@x.com".to_string()),
            (1, "b@x.com".to_string()),
            (3, "c@x.com".to_string()),
            (4, "d@x.com".to_string()),
        ]
    );
    assert_eq!(outcome.status, DeliveryStatus::Success);
    assert_eq!(outcome.skipped, vec![2]);
}

#[test]
fn rejection_on_third_of_five_aborts_the_rest() {
    let rows = rows_from(&["s1@x.com", "s2@x.com", "s3@x.com", "s4@x.com", "s5@x.com"]);
    let mut calls = 0;
    let (sent, outcome) = drive_run(rows, &mut |_, _| {
        calls += 1;
        if calls == 3 {
            Err(SendError::Rejected(500))
        } else {
            Ok(())
        }
    });
    assert_eq!(calls, 3);
    assert_eq!(
        sent,
        vec![
            (0, "s1@x.com".to_string()),
            (1, "s2@x.com".to_string()),
            (2, "s3@x.com".to_string()),
        ]
    );
    assert_eq!(outcome.status, DeliveryStatus::Aborted(SendError::Rejected(500)));
    assert!(outcome.skipped.is_empty());
}

#[test]
fn abort_reports_only_the_rows_skipped_before_it() {
    let rows = rows_from(&["bad one", "a@x.com", "bad two", "b@x.com", "bad three", "c@x.com"]);
    let (sent, outcome) = drive_run(rows, &mut |row, _| {
        if row == 3 {
            Err(SendError::Timeout)
        } else {
            Ok(())
        }
    });
    assert_eq!(sent, vec![(1, "a@x.com".to_string()), (3, "b@x.com".to_string())]);
    assert_eq!(outcome.status, DeliveryStatus::Aborted(SendError::Timeout));
    assert_eq!(outcome.skipped, vec![0, 2]);
}

#[test]
fn failure_on_the_first_send_stops_at_once() {
    let rows = rows_from(&["a@x.com", "b@x.com"]);
    let (sent, outcome) = drive_run(rows, &mut |_, _| Err(SendError::NetworkError));
    assert_eq!(sent, vec![(0, "a@x.com".to_string())]);
    assert_eq!(outcome.status, DeliveryStatus::Aborted(SendError::NetworkError));
}

#[test]
fn empty_list_succeeds_without_a_send() {
    let (sent, outcome) = drive_run(Vec::new(), &mut |_, _| Ok(()));
    assert!(sent.is_empty());
    assert_eq!(outcome, DeliveryOutcome { status: DeliveryStatus::Success, skipped: vec![] });
}

#[test]
fn list_of_invalid_rows_succeeds_without_a_send() {
    let rows = rows_from(&["x", "y", "@z"]);
    let (sent, outcome) = drive_run(rows, &mut |_, _| Err(SendError::Timeout));
    assert!(sent.is_empty());
    assert_eq!(outcome.status, DeliveryStatus::Success);
    assert_eq!(outcome.skipped, vec![0, 1, 2]);
}

#[test]
fn sends_follow_the_order_of_the_list() {
    let rows = rows_from(&["z@x.com", "a@x.com", "m@x.com"]);
    let (sent, _) = drive_run(rows, &mut |_, _| Ok(()));
    let addresses: Vec<String> = sent.into_iter().map(|(_, address)| address).collect();
    assert_eq!(
        addresses,
        vec!["z@x.com".to_string(), "a@x.com".to_string(), "m@x.com".to_string()]
    );
}

#[test]
fn action_does_not_advance_the_run() {
    let run = FanOutDispatcher::new(rows_from(&["bad", "a@x.com"]));
    let first = run.action();
    let second = run.action();
    assert_eq!(first, second);
    assert_eq!(
        first,
        DispatchAction::Send {
            row: 1,
            recipient: SubscriberEmail::parse("a@x.com".to_string()).unwrap(),
        }
    );
}

#[test]
fn answers_after_the_end_change_nothing() {
    let mut run = FanOutDispatcher::new(rows_from(&["a@x.com", "b@x.com"]));
    run.record(Err(SendError::Rejected(503)));
    let ended = run.action();
    assert_eq!(
        ended,
        DispatchAction::Done(DeliveryOutcome {
            status: DeliveryStatus::Aborted(SendError::Rejected(503)),
            skipped: vec![],
        })
    );
    run.record(Ok(()));
    run.record(Err(SendError::Timeout));
    assert_eq!(run.action(), ended);

    let mut finished = FanOutDispatcher::new(rows_from(&["a@x.com"]));
    finished.record(Ok(()));
    let done = finished.action();
    finished.record(Err(SendError::Timeout));
    assert_eq!(finished.action(), done);
    assert_eq!(
        done,
        DispatchAction::Done(DeliveryOutcome { status: DeliveryStatus::Success, skipped: vec![] })
    );
}

#[test]
fn skip_reason_is_the_refusal_of_the_row() {
    let run = FanOutDispatcher::new(rows_from(&["a@x.com", "corrupt"]));
    assert_eq!(run.len(), 2);
    assert_eq!(run.skip_reason(0), None);
    assert_eq!(
        run.skip_reason(1),
        Some(&"corrupt is not a valid subscriber email".to_string())
    );
    assert_eq!(run.skip_reason(2), None);
}
