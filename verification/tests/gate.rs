use newsletter::idempotency::gate::decide_begin;
use newsletter::idempotency::{
    from_columns, to_columns, BeginOutcome, GateError, HeaderPair, IdempotencyGate,
    IdempotencyKey, RecordColumns, RecordState, SavedResponse,
};

fn key_named(text: &str) -> IdempotencyKey {
    IdempotencyKey::try_from(text.to_string()).unwrap()
}

fn sample_response() -> SavedResponse {
    SavedResponse {
        status_code: 303,
        headers: vec![
            HeaderPair { name: "Location".to_string(), value: b"/admin/newsletters".to_vec() },
            HeaderPair { name: "X-Binary".to_string(), value: vec![0, 255, 128] },
        ],
        body: vec![1, 2, 3, 0, 254],
    }
}

#[test]
fn fresh_key_is_admitted_and_filed_in_progress() {
    let mut gate = IdempotencyGate::new();
    let key = key_named("abc");
    assert_eq!(gate.state_of(7, &key), None);
    assert_eq!(gate.begin(7, &key), BeginOutcome::Admitted);
    assert_eq!(gate.state_of(7, &key), Some(RecordState::InProgress));
}

#[test]
fn attempt_in_flight_is_a_conflict() {
    let mut gate = IdempotencyGate::new();
    let key = key_named("abc");
    assert_eq!(gate.begin(7, &key), BeginOutcome::Admitted);
    assert_eq!(gate.begin(7, &key), BeginOutcome::Conflict);
    assert_eq!(gate.begin(7, &key), BeginOutcome::Conflict);
    assert_eq!(gate.state_of(7, &key), Some(RecordState::InProgress));
}

#[test]
fn completed_key_replays_the_identical_response() {
    let mut gate = IdempotencyGate::new();
    let key = key_named("abc");
    assert_eq!(gate.begin(7, &key), BeginOutcome::Admitted);
    assert_eq!(gate.complete(7, &key, sample_response()), Ok(()));
    for _ in 0..3 {
        assert_eq!(gate.begin(7, &key), BeginOutcome::Replay(sample_response()));
    }
    assert_eq!(gate.state_of(7, &key), Some(RecordState::Completed(sample_response())));
}

#[test]
fn completed_record_stays_through_later_operations() {
    let mut gate = IdempotencyGate::new();
    let key = key_named("abc");
    let other = key_named("other");
    gate.begin(7, &key);
    gate.complete(7, &key, sample_response()).unwrap();
    assert_eq!(gate.begin(7, &other), BeginOutcome::Admitted);
    assert_eq!(gate.begin(8, &key), BeginOutcome::Admitted);
    assert_eq!(gate.complete(8, &key, SavedResponse::empty(200)), Ok(()));
    assert_eq!(gate.abandon(7, &other), Ok(()));
    assert_eq!(gate.abandon(7, &key), Err(GateError::AlreadyCompleted));
    assert_eq!(
        gate.complete(7, &key, SavedResponse::empty(500)),
        Err(GateError::AlreadyCompleted)
    );
    assert_eq!(gate.begin(7, &key), BeginOutcome::Replay(sample_response()));
    assert_eq!(gate.begin(8, &key), BeginOutcome::Replay(SavedResponse::empty(200)));
}

#[test]
fn records_are_kept_apart_by_owner_and_by_key() {
    let mut gate = IdempotencyGate::new();
    let key = key_named("abc");
    assert_eq!(gate.begin(1, &key), BeginOutcome::Admitted);
    assert_eq!(gate.begin(2, &key), BeginOutcome::Admitted);
    assert_eq!(gate.begin(1, &key_named("abd")), BeginOutcome::Admitted);
    assert_eq!(gate.begin(1, &key), BeginOutcome::Conflict);
    assert_eq!(gate.complete(2, &key, SavedResponse::empty(200)), Ok(()));
    assert_eq!(gate.state_of(1, &key), Some(RecordState::InProgress));
    assert_eq!(gate.state_of(2, &key), Some(RecordState::Completed(SavedResponse::empty(200))));
    assert_eq!(gate.state_of(3, &key), None);
}

#[test]
fn completing_without_admission_is_refused() {
    let mut gate = IdempotencyGate::new();
    let key = key_named("abc");
    assert_eq!(gate.complete(7, &key, sample_response()), Err(GateError::NotAdmitted));
    assert_eq!(gate.state_of(7, &key), None);
    assert_eq!(gate.begin(7, &key), BeginOutcome::Admitted);
}

#[test]
fn completing_twice_keeps_the_first_response() {
    let mut gate = IdempotencyGate::new();
    let key = key_named("abc");
    gate.begin(7, &key);
    assert_eq!(gate.complete(7, &key, sample_response()), Ok(()));
    assert_eq!(
        gate.complete(7, &key, SavedResponse::empty(200)),
        Err(GateError::AlreadyCompleted)
    );
    assert_eq!(gate.begin(7, &key), BeginOutcome::Replay(sample_response()));
}

#[test]
fn abandoned_attempt_can_be_admitted_again() {
    let mut gate = IdempotencyGate::new();
    let key = key_named("abc");
    assert_eq!(gate.begin(7, &key), BeginOutcome::Admitted);
    assert_eq!(gate.abandon(7, &key), Ok(()));
    assert_eq!(gate.state_of(7, &key), None);
    assert_eq!(gate.begin(7, &key), BeginOutcome::Admitted);
}

#[test]
fn abandoning_without_admission_is_refused() {
    let mut gate = IdempotencyGate::new();
    let key = key_named("abc");
    assert_eq!(gate.abandon(7, &key), Err(GateError::NotAdmitted));
    gate.begin(7, &key);
    gate.abandon(7, &key).unwrap();
    assert_eq!(gate.abandon(7, &key), Err(GateError::NotAdmitted));
}

#[test]
fn many_attempts_are_admitted_once() {
    let mut gate = IdempotencyGate::new();
    let key = key_named("abc");
    let mut admitted = 0;
    for round in 0..20u128 {
        if gate.begin(7, &key) == BeginOutcome::Admitted {
            admitted += 1;
        }
        gate.begin(100 + round, &key);
        if round == 10 {
            gate.complete(7, &key, sample_response()).unwrap();
        }
    }
    assert_eq!(admitted, 1);
}

#[test]
fn decision_follows_what_the_store_did_and_holds() {
    assert_eq!(decide_begin(true, None), BeginOutcome::Admitted);
    assert_eq!(decide_begin(true, Some(RecordState::InProgress)), BeginOutcome::Admitted);
    assert_eq!(decide_begin(false, Some(RecordState::InProgress)), BeginOutcome::Conflict);
    assert_eq!(
        decide_begin(false, Some(RecordState::Completed(sample_response()))),
        BeginOutcome::Replay(sample_response())
    );
    assert_eq!(decide_begin(false, None), BeginOutcome::Conflict);
}

#[test]
fn copies_of_a_response_are_identical() {
    let response = sample_response();
    let copy = response.clone();
    assert_eq!(copy, response);
    assert_eq!(copy.headers[1].value, vec![0, 255, 128]);
    assert_eq!(
        SavedResponse::empty(409),
        SavedResponse { status_code: 409, headers: vec![], body: vec![] }
    );
}

#[test]
fn stored_columns_read_back_as_the_same_state() {
    let completed = to_columns(RecordState::Completed(sample_response()));
    assert_eq!(
        completed,
        RecordColumns {
            state: "completed".to_string(),
            response_status_code: Some(303),
            response_headers: sample_response().headers,
            response_body: vec![1, 2, 3, 0, 254],
        }
    );
    assert_eq!(from_columns(completed), Some(RecordState::Completed(sample_response())));

    let in_progress = to_columns(RecordState::InProgress);
    assert_eq!(
        in_progress,
        RecordColumns {
            state: "in_progress".to_string(),
            response_status_code: None,
            response_headers: vec![],
            response_body: vec![],
        }
    );
    assert_eq!(from_columns(in_progress), Some(RecordState::InProgress));
}

#[test]
fn malformed_columns_store_no_state() {
    let unknown = RecordColumns {
        state: "finished".to_string(),
        response_status_code: Some(200),
        response_headers: vec![],
        response_body: vec![],
    };
    assert_eq!(from_columns(unknown), None);
    let without_status = RecordColumns {
        state: "completed".to_string(),
        response_status_code: None,
        response_headers: vec![],
        response_body: vec![],
    };
    assert_eq!(from_columns(without_status), None);
    let empty_name = RecordColumns {
        state: String::new(),
        response_status_code: None,
        response_headers: vec![],
        response_body: vec![],
    };
    assert_eq!(from_columns(empty_name), None);
}
