use newsletter::dispatch::{
    confirmed_subscribers, DeliveryOutcome, DeliveryStatus, DispatchAction, FanOutDispatcher,
};
use newsletter::domain::SubscriberEmail;
use newsletter::email_client::SendError;
use newsletter::idempotency::{
    BeginOutcome, HeaderPair, IdempotencyGate, IdempotencyKey, RecordState, SavedResponse,
};
use newsletter::idempotency::InvalidIdempotencyKey;
use newsletter::publish::{
    bad_request, check_key, finish, see_other, send_failure_message, settle, start, step_for,
    FanOut, PublishStep, Settlement,
};

const U1: u128 = 0x0123_4567_89ab_cdef_0123_4567_89ab_cdef;

/// One publishing request from arrival to response, against a transport that
/// answers every send with `reply` and counts the sends.
fn publish_once(
    gate: &mut IdempotencyGate,
    owner: u128,
    raw_key: &str,
    subscribers: &[&str],
    reply: Result<(), SendError>,
    sends: &mut Vec<String>,
) -> SavedResponse {
    match start(gate, owner, raw_key.to_string()) {
        PublishStep::Respond(response) => response,
        PublishStep::Dispatch(key) => {
            let rows = confirmed_subscribers(subscribers.iter().map(|s| s.to_string()).collect());
            let mut run = FanOutDispatcher::new(rows);
            let outcome: DeliveryOutcome = loop {
                match run.action() {
                    DispatchAction::Send { recipient, .. } => {
                        sends.push(recipient.to_string());
                        run.record(reply);
                    }
                    DispatchAction::Done(outcome) => break outcome,
                }
            };
            finish(gate, owner, &key, FanOut::Ended(outcome.status), see_other("/admin/newsletters"))
        }
    }
}

#[test]
fn retry_with_the_same_key_replays_and_sends_nothing() {
    let mut gate = IdempotencyGate::new();
    let mut sends = Vec::new();
    let first = publish_once(&mut gate, U1, "abc", &["a@x.com", "b@x.com"], Ok(()), &mut sends);
    assert_eq!(sends, vec!["a@x.com".to_string(), "b@x.com".to_string()]);
    assert_eq!(first, see_other("/admin/newsletters"));

    let retry = publish_once(&mut gate, U1, "abc", &["a@x.com", "b@x.com"], Ok(()), &mut sends);
    assert_eq!(retry, first);
    assert_eq!(sends.len(), 2);
}

#[test]
fn same_key_of_another_owner_is_a_request_of_its_own() {
    let mut gate = IdempotencyGate::new();
    let mut sends = Vec::new();
    publish_once(&mut gate, U1, "abc", &["a@x.com"], Ok(()), &mut sends);
    publish_once(&mut gate, U1 + 1, "abc", &["a@x.com"], Ok(()), &mut sends);
    assert_eq!(sends.len(), 2);
}

#[test]
fn invalid_key_is_answered_with_400_and_touches_nothing() {
    let mut gate = IdempotencyGate::new();
    let mut sends = Vec::new();
    let empty = publish_once(&mut gate, U1, "", &["a@x.com"], Ok(()), &mut sends);
    assert_eq!(
        empty,
        SavedResponse {
            status_code: 400,
            headers: vec![],
            body: b"The idempotency key cannot be empty".to_vec(),
        }
    );
    let long = "k".repeat(50);
    let too_long = publish_once(&mut gate, U1, &long, &["a@x.com"], Ok(()), &mut sends);
    assert_eq!(
        too_long,
        SavedResponse {
            status_code: 400,
            headers: vec![],
            body: b"The idempotency key must be shorter than 50 characters".to_vec(),
        }
    );
    assert!(sends.is_empty());
    let key = IdempotencyKey::try_from("k".repeat(49)).unwrap();
    assert_eq!(gate.state_of(U1, &key), None);
}

#[test]
fn request_in_flight_is_answered_with_409() {
    let mut gate = IdempotencyGate::new();
    let first = start(&mut gate, U1, "abc".to_string());
    assert_eq!(first, PublishStep::Dispatch(IdempotencyKey::try_from("abc".to_string()).unwrap()));
    let second = start(&mut gate, U1, "abc".to_string());
    assert_eq!(second, PublishStep::Respond(SavedResponse::empty(409)));
}

#[test]
fn aborted_fan_out_is_answered_with_500_and_can_be_retried() {
    let mut gate = IdempotencyGate::new();
    let mut sends = Vec::new();
    let failed = publish_once(
        &mut gate,
        U1,
        "abc",
        &["a@x.com", "b@x.com"],
        Err(SendError::Rejected(500)),
        &mut sends,
    );
    assert_eq!(failed, SavedResponse::empty(500));
    assert_eq!(sends, vec!["a@x.com".to_string()]);
    let key = IdempotencyKey::try_from("abc".to_string()).unwrap();
    assert_eq!(gate.state_of(U1, &key), None);

    let retry = publish_once(&mut gate, U1, "abc", &["a@x.com", "b@x.com"], Ok(()), &mut sends);
    assert_eq!(retry, see_other("/admin/newsletters"));
    assert_eq!(sends.len(), 3);
    assert_eq!(
        gate.state_of(U1, &key),
        Some(RecordState::Completed(see_other("/admin/newsletters")))
    );
}

#[test]
fn finishing_without_a_record_in_progress_is_answered_with_500() {
    let mut gate = IdempotencyGate::new();
    let key = IdempotencyKey::try_from("abc".to_string()).unwrap();
    let response = finish(
        &mut gate,
        U1,
        &key,
        FanOut::Ended(DeliveryStatus::Success),
        SavedResponse::empty(200),
    );
    assert_eq!(response, SavedResponse::empty(500));
    assert_eq!(gate.state_of(U1, &key), None);

    gate.begin(U1, &key);
    gate.complete(U1, &key, SavedResponse::empty(200)).unwrap();
    let again = finish(
        &mut gate,
        U1,
        &key,
        FanOut::Ended(DeliveryStatus::Success),
        SavedResponse::empty(204),
    );
    assert_eq!(again, SavedResponse::empty(500));
    assert_eq!(gate.begin(U1, &key), BeginOutcome::Replay(SavedResponse::empty(200)));
}

#[test]
fn steps_follow_the_answer_to_the_attempt() {
    let key = IdempotencyKey::try_from("abc".to_string()).unwrap();
    assert_eq!(
        step_for(BeginOutcome::Admitted, key.duplicate()),
        PublishStep::Dispatch(key.duplicate())
    );
    assert_eq!(
        step_for(BeginOutcome::Conflict, key.duplicate()),
        PublishStep::Respond(SavedResponse::empty(409))
    );
    assert_eq!(
        step_for(BeginOutcome::Replay(see_other("/x")), key),
        PublishStep::Respond(see_other("/x"))
    );
}

#[test]
fn settlement_follows_the_status() {
    assert_eq!(
        settle(FanOut::Ended(DeliveryStatus::Success), see_other("/admin/newsletters")),
        Settlement::Complete(see_other("/admin/newsletters"))
    );
    for reason in [SendError::Timeout, SendError::Rejected(502), SendError::NetworkError] {
        assert_eq!(
            settle(FanOut::Ended(DeliveryStatus::Aborted(reason)), see_other("/admin/newsletters")),
            Settlement::Abandon(SavedResponse::empty(500))
        );
    }
    assert_eq!(
        settle(FanOut::Unavailable, see_other("/admin/newsletters")),
        Settlement::Abandon(SavedResponse::empty(500))
    );
}

#[test]
fn redirect_carries_the_location() {
    assert_eq!(
        see_other("/admin/newsletters"),
        SavedResponse {
            status_code: 303,
            headers: vec![HeaderPair {
                name: "Location".to_string(),
                value: b"/admin/newsletters".to_vec(),
            }],
            body: vec![],
        }
    );
}

#[test]
fn failed_send_is_reported_with_the_recipient() {
    let recipient = SubscriberEmail::parse("a@x.com".to_string()).unwrap();
    assert_eq!(
        send_failure_message(&recipient),
        "Failed to send newsletter isue to a@x.com".to_string()
    );
}

#[test]
fn key_text_is_checked_before_anything_else() {
    assert_eq!(
        check_key("abc".to_string()),
        Ok(IdempotencyKey::try_from("abc".to_string()).unwrap())
    );
    assert_eq!(check_key(String::new()), Err(bad_request(InvalidIdempotencyKey::Empty)));
    assert_eq!(check_key("k".repeat(50)), Err(bad_request(InvalidIdempotencyKey::TooLong)));
    assert_eq!(bad_request(InvalidIdempotencyKey::Empty).status_code, 400);
    assert_eq!(
        bad_request(InvalidIdempotencyKey::TooLong).body,
        b"The idempotency key must be shorter than 50 characters".to_vec()
    );
    assert!(check_key("k".repeat(49)).is_ok());
}

#[test]
fn request_without_a_list_gives_its_record_up() {
    let mut gate = IdempotencyGate::new();
    let key = match start(&mut gate, U1, "abc".to_string()) {
        PublishStep::Dispatch(key) => key,
        PublishStep::Respond(response) => panic!("answered with {:?}", response),
    };
    let response = finish(&mut gate, U1, &key, FanOut::Unavailable, SavedResponse::empty(200));
    assert_eq!(response, SavedResponse::empty(500));
    assert_eq!(gate.state_of(U1, &key), None);
    assert_eq!(
        start(&mut gate, U1, "abc".to_string()),
        PublishStep::Dispatch(key)
    );
}
