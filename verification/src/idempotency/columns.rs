use crate::idempotency::gate::model::{RecordState, StateView};
use crate::idempotency::response::{HeaderPair, ResponseView, SavedResponse};
use vstd::prelude::*;
use vstd::string::*;

verus! {

/// What a stored record holds besides its caller, its key and the time of
/// its creation.
#[derive(Debug, PartialEq, Eq)]
pub struct RecordColumns {
    /// `in_progress` or `completed`.
    pub state: String,
    /// The status of the saved response; present in a completed record.
    pub response_status_code: Option<u16>,
    /// The headers of the saved response, in their order.
    pub response_headers: Vec<HeaderPair>,
    /// The body of the saved response.
    pub response_body: Vec<u8>,
}

/// [`RecordColumns`] as plain values.
pub struct ColumnsView {
    pub state: Seq<char>,
    pub response_status_code: Option<u16>,
    pub response_headers: Seq<(Seq<char>, Seq<u8>)>,
    pub response_body: Seq<u8>,
}

impl View for RecordColumns {
    type V = ColumnsView;

    open spec fn view(&self) -> ColumnsView {
        ColumnsView {
            state: self.state@,
            response_status_code: self.response_status_code,
            response_headers: Seq::new(
                self.response_headers.len() as nat,
                |i: int| self.response_headers[i]@,
            ),
            response_body: self.response_body@,
        }
    }
}

/// The columns that store `state`. A record in progress has no response yet:
/// no status, no headers, an empty body.
pub open spec fn columns_of(state: StateView) -> ColumnsView {
    match state {
        StateView::InProgress => ColumnsView {
            state: "in_progress"@,
            response_status_code: None,
            response_headers: Seq::empty(),
            response_body: Seq::empty(),
        },
        StateView::Completed(response) => ColumnsView {
            state: "completed"@,
            response_status_code: Some(response.status_code),
            response_headers: response.headers,
            response_body: response.body,
        },
    }
}

/// The state that `columns` store, if they store one. A record in progress
/// is one whatever its response columns hold; a completed record needs its
/// status; any other name of a state stores nothing.
pub open spec fn state_in(columns: ColumnsView) -> Option<StateView> {
    if columns.state == "in_progress"@ {
        Some(StateView::InProgress)
    } else if columns.state == "completed"@ {
        match columns.response_status_code {
            Some(status_code) => Some(
                StateView::Completed(
                    ResponseView {
                        status_code,
                        headers: columns.response_headers,
                        body: columns.response_body,
                    },
                ),
            ),
            None => None,
        }
    } else {
        None
    }
}

/// Lays `state` out in columns.
pub fn to_columns(state: RecordState) -> (columns: RecordColumns)
    ensures
        columns@ == columns_of(state@),
{
    match state {
        RecordState::InProgress => {
            let columns = RecordColumns {
                state: String::from_str("in_progress"),
                response_status_code: None,
                response_headers: Vec::new(),
                response_body: Vec::new(),
            };
            assert(columns@.response_headers =~= Seq::empty());
            columns
        },
        RecordState::Completed(response) => RecordColumns {
            state: String::from_str("completed"),
            response_status_code: Some(response.status_code),
            response_headers: response.headers,
            response_body: response.body,
        },
    }
}

/// Reads the state out of `columns`: [`state_in`].
pub fn from_columns(columns: RecordColumns) -> (state: Option<RecordState>)
    ensures
        state_in(columns@) == match state {
            Some(found) => Some(found@),
            None => None,
        },
{
    if columns.state == String::from_str("in_progress") {
        Some(RecordState::InProgress)
    } else if columns.state == String::from_str("completed") {
        match columns.response_status_code {
            Some(status_code) => Some(
                RecordState::Completed(
                    SavedResponse {
                        status_code,
                        headers: columns.response_headers,
                        body: columns.response_body,
                    },
                ),
            ),
            None => None,
        }
    } else {
        None
    }
}

/// What is stored is what is read back: laying a state out in columns and
/// reading the columns gives the same state, and for a completed record the
/// same response, byte for byte.
pub proof fn law_columns_round_trip(state: StateView)
    ensures
        state_in(columns_of(state)) == Some(state),
{
    reveal_strlit("in_progress");
    reveal_strlit("completed");
    assert("in_progress"@.len() != "completed"@.len());
}

} // verus!
