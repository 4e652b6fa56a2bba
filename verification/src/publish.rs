use crate::dispatch::DeliveryStatus;
use crate::domain::SubscriberEmail;
use crate::idempotency::gate::model::{
    after_abandon,
    after_begin,
    after_complete,
    begin_outcome,
    held,
    in_progress_check,
    BeginOutcome,
    BeginView,
    GateView,
    RecordName,
};
use crate::idempotency::gate::IdempotencyGate;
use crate::idempotency::key::{is_valid_key, key_refusal, IdempotencyKey, InvalidIdempotencyKey};
use crate::idempotency::response::{HeaderPair, ResponseView, SavedResponse};
use vstd::prelude::*;
use vstd::string::*;

verus! {

/// Status of the answer to a request whose idempotency key is not valid.
pub const BAD_REQUEST: u16 = 400;

/// Status of the answer to a request whose action is in flight already.
pub const CONFLICT: u16 = 409;

/// Status of the answer to a request whose fan-out was aborted.
pub const INTERNAL_SERVER_ERROR: u16 = 500;

/// Status of a redirect after a form was handled.
pub const SEE_OTHER: u16 = 303;

/// A response with a status and nothing else.
pub open spec fn bare(status_code: u16) -> ResponseView {
    ResponseView { status_code, headers: Seq::empty(), body: Seq::empty() }
}

/// The answer to a request whose key text was refused: status 400, with the
/// reason as the body, in UTF-8.
pub open spec fn refused(why: InvalidIdempotencyKey) -> ResponseView {
    ResponseView {
        status_code: BAD_REQUEST,
        headers: Seq::empty(),
        body: vstd::utf8::encode_utf8(why.message_spec()),
    }
}

/// Builds the answer to a request whose key text was refused.
pub fn bad_request(why: InvalidIdempotencyKey) -> (response: SavedResponse)
    ensures
        response@ == refused(why),
{
    let response = SavedResponse {
        status_code: BAD_REQUEST,
        headers: Vec::new(),
        body: why.message().as_str().as_bytes_vec(),
    };
    assert(response@.headers =~= Seq::empty());
    response
}

/// A redirect to `location`, with the location's UTF-8 bytes as the value of
/// the `Location` header.
pub open spec fn redirect(location: Seq<char>) -> ResponseView {
    ResponseView {
        status_code: SEE_OTHER,
        headers: seq![("Location"@, vstd::utf8::encode_utf8(location))],
        body: Seq::empty(),
    }
}

/// Builds the redirect to `location`.
pub fn see_other(location: &str) -> (response: SavedResponse)
    ensures
        response@ == redirect(location@),
{
    let mut headers: Vec<HeaderPair> = Vec::new();
    headers.push(HeaderPair { name: String::from_str("Location"), value: location.as_bytes_vec() });
    let response = SavedResponse { status_code: SEE_OTHER, headers, body: Vec::new() };
    assert(response@.headers =~= redirect(location@).headers);
    response
}

/// The sentence that reports a failed send to `recipient`.
pub open spec fn send_failure(recipient: Seq<char>) -> Seq<char> {
    "Failed to send newsletter isue to "@ + recipient
}

/// Words the report of a failed send to `recipient`.
pub fn send_failure_message(recipient: &SubscriberEmail) -> (text: String)
    ensures
        text@ == send_failure(recipient@),
{
    String::from_str("Failed to send newsletter isue to ").concat(recipient.as_ref())
}

/// What happens to a publishing request once its key was looked at.
#[derive(Debug, PartialEq, Eq)]
pub enum PublishStep {
    /// Answer with this response; nothing is to be sent.
    Respond(SavedResponse),
    /// The request is the sole executor under this key: run the fan-out.
    Dispatch(IdempotencyKey),
}

/// A [`PublishStep`] as plain values.
pub enum StepView {
    Respond(ResponseView),
    Dispatch(Seq<char>),
}

impl View for PublishStep {
    type V = StepView;

    open spec fn view(&self) -> StepView {
        match self {
            PublishStep::Respond(response) => StepView::Respond(response@),
            PublishStep::Dispatch(key) => StepView::Dispatch(key@),
        }
    }
}

/// The step that follows an answer to the attempt under `key`: an admitted
/// request runs the fan-out, a finished one gets the saved response as it
/// is, and one that meets an attempt in flight is told to come back later.
pub open spec fn step_after(outcome: BeginView, key: Seq<char>) -> StepView {
    match outcome {
        BeginView::Admitted => StepView::Dispatch(key),
        BeginView::Replay(response) => StepView::Respond(response),
        BeginView::Conflict => StepView::Respond(bare(CONFLICT)),
    }
}

/// Decides the step that follows `outcome`, the answer to the attempt under
/// `key`.
pub fn step_for(outcome: BeginOutcome, key: IdempotencyKey) -> (step: PublishStep)
    ensures
        step@ == step_after(outcome@, key@),
{
    match outcome {
        BeginOutcome::Admitted => PublishStep::Dispatch(key),
        BeginOutcome::Replay(response) => PublishStep::Respond(response),
        BeginOutcome::Conflict => PublishStep::Respond(SavedResponse::empty(CONFLICT)),
    }
}

/// The records and the step after a request by `owner` with the key text
/// `raw_key` came in.
pub struct Started {
    pub records: GateView,
    pub step: StepView,
}

/// What the arrival of a request by `owner` with the key text `raw_key` does:
/// text that is no valid key is answered with 400 and touches no record;
/// a valid key is put to the records as an attempt.
pub open spec fn started(records: GateView, owner: u128, raw_key: Seq<char>) -> Started {
    match key_refusal(raw_key) {
        None => Started {
            records: after_begin(records, (owner, raw_key)),
            step: step_after(begin_outcome(records, (owner, raw_key)), raw_key),
        },
        Some(why) => Started { records, step: StepView::Respond(refused(why)) },
    }
}

/// Validates the key text of a request. Valid text becomes the key, with the
/// text unchanged; any other text is answered with 400 and the reason.
pub fn check_key(raw_key: String) -> (checked: Result<IdempotencyKey, SavedResponse>)
    ensures
        checked is Ok <==> is_valid_key(raw_key@),
        checked matches Ok(key) ==> key@ == raw_key@,
        checked matches Err(response) ==> key_refusal(raw_key@) matches Some(why) && response@
            == refused(why),
{
    match IdempotencyKey::try_from(raw_key) {
        Ok(key) => Ok(key),
        Err(why) => Err(bad_request(why)),
    }
}

/// Takes in a publishing request by `owner` with the key text `raw_key`:
/// [`started`] says what becomes of the records and what to do next.
pub fn start(gate: &mut IdempotencyGate, owner: u128, raw_key: String) -> (step: PublishStep)
    ensures
        final(gate)@ == started(old(gate)@, owner, raw_key@).records,
        step@ == started(old(gate)@, owner, raw_key@).step,
{
    match check_key(raw_key) {
        Ok(key) => {
            let outcome = gate.begin(owner, &key);
            step_for(outcome, key)
        },
        Err(response) => PublishStep::Respond(response),
    }
}

/// What became of the fan-out of an admitted request.
#[derive(Debug, Clone, Copy, PartialEq, Eq, Structural)]
pub enum FanOut {
    /// The list of subscribers could not be had; nothing was sent.
    Unavailable,
    /// The run over the list ended with this status.
    Ended(DeliveryStatus),
}

/// What is to be done with the record of an admitted request once its
/// fan-out is over.
#[derive(Debug, PartialEq, Eq)]
pub enum Settlement {
    /// Store this response as the record's outcome and answer with it.
    Complete(SavedResponse),
    /// Give the record up, so that a retry is admitted, and answer with this
    /// response.
    Abandon(SavedResponse),
}

/// A [`Settlement`] as plain values.
pub enum SettlementView {
    Complete(ResponseView),
    Abandon(ResponseView),
}

impl View for Settlement {
    type V = SettlementView;

    open spec fn view(&self) -> SettlementView {
        match self {
            Settlement::Complete(response) => SettlementView::Complete(response@),
            Settlement::Abandon(response) => SettlementView::Abandon(response@),
        }
    }
}

/// A fan-out that succeeded completes the record with the response for
/// success. One that was aborted, and one that could not start for want of
/// the list, gives the record up and answers with 500.
pub open spec fn settlement_for(fan_out: FanOut, success: ResponseView) -> SettlementView {
    match fan_out {
        FanOut::Ended(DeliveryStatus::Success) => SettlementView::Complete(success),
        _ => SettlementView::Abandon(bare(INTERNAL_SERVER_ERROR)),
    }
}

/// Decides what to do with the record after the fan-out, where `success` is
/// the response for success.
pub fn settle(fan_out: FanOut, success: SavedResponse) -> (settlement: Settlement)
    ensures
        settlement@ == settlement_for(fan_out, success@),
{
    match fan_out {
        FanOut::Ended(DeliveryStatus::Success) => Settlement::Complete(success),
        _ => Settlement::Abandon(SavedResponse::empty(INTERNAL_SERVER_ERROR)),
    }
}

/// The records and the response after the fan-out of an admitted request
/// was over.
pub struct Finished {
    pub records: GateView,
    pub response: ResponseView,
}

/// What the end of a fan-out does to the record under `name`. After success
/// the record is completed with `success`, which is also the response; when
/// there is no record in progress to complete, nothing changes and the
/// response is 500. After an abort, and when the fan-out could not start,
/// the record in progress is given up and the response is 500.
pub open spec fn finished(
    records: GateView,
    name: RecordName,
    fan_out: FanOut,
    success: ResponseView,
) -> Finished {
    match settlement_for(fan_out, success) {
        SettlementView::Complete(response) => Finished {
            records: after_complete(records, name, response),
            response: if in_progress_check(records, name) is Ok {
                response
            } else {
                bare(INTERNAL_SERVER_ERROR)
            },
        },
        SettlementView::Abandon(response) => Finished {
            records: after_abandon(records, name),
            response,
        },
    }
}

/// Settles the record of the request by `owner` under `key` after its
/// fan-out: [`finished`] says what becomes of the records and what the
/// response is.
pub fn finish(
    gate: &mut IdempotencyGate,
    owner: u128,
    key: &IdempotencyKey,
    fan_out: FanOut,
    success: SavedResponse,
) -> (response: SavedResponse)
    ensures
        final(gate)@ == finished(old(gate)@, (owner, key@), fan_out, success@).records,
        response@ == finished(old(gate)@, (owner, key@), fan_out, success@).response,
{
    match settle(fan_out, success) {
        Settlement::Complete(response) => {
            let copy = response.clone();
            match gate.complete(owner, key, response) {
                Ok(_) => copy,
                Err(_) => SavedResponse::empty(INTERNAL_SERVER_ERROR),
            }
        },
        Settlement::Abandon(response) => {
            let _ = gate.abandon(owner, key);
            response
        },
    }
}

/// A request that meets a record under its name, in progress or completed,
/// never runs the fan-out and leaves the records as they are.
pub proof fn law_duplicate_is_not_dispatched(records: GateView, owner: u128, key: Seq<char>)
    requires
        held(records, (owner, key)) is Some,
    ensures
        started(records, owner, key).step is Respond,
        started(records, owner, key).records == records,
{
}

/// Of two requests with the same caller and key, one straight after the
/// other, the second never runs the fan-out, whatever the records held
/// before the first.
pub proof fn law_second_request_is_not_dispatched(records: GateView, owner: u128, key: Seq<char>)
    ensures
        started(started(records, owner, key).records, owner, key).step is Respond,
{
}

/// A request that was dispatched and whose fan-out succeeded is answered
/// with the response for success; the same request, made again, is answered
/// with that very response, runs nothing, and changes no record.
pub proof fn law_retry_replays(
    records: GateView,
    owner: u128,
    key: Seq<char>,
    success: ResponseView,
)
    requires
        started(records, owner, key).step is Dispatch,
    ensures
        ({
            let first = started(records, owner, key);
            let done = finished(
                first.records,
                (owner, key),
                FanOut::Ended(DeliveryStatus::Success),
                success,
            );
            let again = started(done.records, owner, key);
            &&& done.response == success
            &&& again.step == StepView::Respond(success)
            &&& again.records == done.records
        }),
{
}

/// A request that was dispatched and whose fan-out did not succeed, because
/// it was aborted or could not start, is answered with 500, and its record
/// is given up: the records are as they were before the request, so the
/// same request, made again, is dispatched again.
pub proof fn law_abort_allows_retry(
    records: GateView,
    owner: u128,
    key: Seq<char>,
    fan_out: FanOut,
    success: ResponseView,
)
    requires
        started(records, owner, key).step is Dispatch,
        fan_out != FanOut::Ended(DeliveryStatus::Success),
    ensures
        ({
            let first = started(records, owner, key);
            let done = finished(first.records, (owner, key), fan_out, success);
            &&& done.response == bare(INTERNAL_SERVER_ERROR)
            &&& done.records == records
            &&& started(done.records, owner, key).step is Dispatch
        }),
{
    let first = started(records, owner, key);
    assert(first.records.remove((owner, key)) =~= records);
}

} // verus!
