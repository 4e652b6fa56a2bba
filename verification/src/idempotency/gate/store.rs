use crate::idempotency::gate::model::{
    after_abandon,
    after_begin,
    after_complete,
    begin_outcome,
    decide_begin,
    held,
    in_progress_check,
    BeginOutcome,
    GateError,
    GateView,
    RecordName,
    RecordState,
    StateView,
};
use crate::idempotency::key::IdempotencyKey;
use crate::idempotency::response::SavedResponse;
use vstd::prelude::*;

verus! {

/// One record: who made the attempt, under which key, and where it stands.
#[derive(Debug)]
struct IdempotencyRecord {
    owner: u128,
    key: IdempotencyKey,
    state: RecordState,
}

impl IdempotencyRecord {
    /// The name the record is filed under.
    spec fn name(&self) -> RecordName {
        (self.owner, self.key@)
    }
}

/// The records as a list of names and states.
spec fn entries(records: Seq<IdempotencyRecord>) -> Seq<(RecordName, StateView)> {
    Seq::new(records.len(), |i: int| (records[i].name(), records[i].state@))
}

/// No name occurs twice in the list.
spec fn names_distinct(list: Seq<(RecordName, StateView)>) -> bool {
    forall|i: int, j: int|
        0 <= i < list.len() && 0 <= j < list.len() && list[i].0 == list[j].0 ==> i == j
}

/// Whether the list has an entry under `name`.
spec fn has_name(list: Seq<(RecordName, StateView)>, name: RecordName) -> bool {
    exists|i: int| 0 <= i < list.len() && #[trigger] list[i].0 == name
}

/// The position of an entry under `name`.
spec fn position(list: Seq<(RecordName, StateView)>, name: RecordName) -> int {
    choose|i: int| 0 <= i < list.len() && #[trigger] list[i].0 == name
}

/// The map from each name in the list to the state filed under it.
spec fn as_map(list: Seq<(RecordName, StateView)>) -> GateView {
    Map::new(|name: RecordName| has_name(list, name), |name: RecordName| list[position(list, name)].1)
}

proof fn lemma_entry(list: Seq<(RecordName, StateView)>, i: int)
    requires
        names_distinct(list),
        0 <= i < list.len(),
    ensures
        has_name(list, list[i].0),
        position(list, list[i].0) == i,
        as_map(list).dom().contains(list[i].0),
        as_map(list)[list[i].0] == list[i].1,
{
    assert(list[i].0 == list[i].0);
}

proof fn lemma_push(list: Seq<(RecordName, StateView)>, name: RecordName, state: StateView)
    requires
        names_distinct(list),
        !has_name(list, name),
    ensures
        names_distinct(list.push((name, state))),
        as_map(list.push((name, state))) == as_map(list).insert(name, state),
{
    let longer = list.push((name, state));
    assert forall|i: int, j: int|
        0 <= i < longer.len() && 0 <= j < longer.len() && longer[i].0 == longer[j].0 implies i
        == j by {
        if i < list.len() {
            assert(list[i].0 == longer[i].0);
        }
        if j < list.len() {
            assert(list[j].0 == longer[j].0);
        }
    }
    assert forall|other: RecordName| has_name(longer, other) <==> (other == name || has_name(
        list,
        other,
    )) by {
        if has_name(longer, other) {
            let i = position(longer, other);
            if i < list.len() {
                assert(list[i].0 == other);
            }
        }
        if other == name {
            assert(longer[list.len() as int].0 == name);
        }
        if has_name(list, other) {
            let i = position(list, other);
            assert(longer[i].0 == other);
        }
    }
    assert forall|other: RecordName| has_name(longer, other) implies as_map(longer)[other]
        == as_map(list).insert(name, state)[other] by {
        let i = position(longer, other);
        lemma_entry(longer, i);
        if i < list.len() {
            assert(list[i] == longer[i]);
            lemma_entry(list, i);
        }
    }
    assert(as_map(longer) =~= as_map(list).insert(name, state));
}

proof fn lemma_update(list: Seq<(RecordName, StateView)>, at: int, state: StateView)
    requires
        names_distinct(list),
        0 <= at < list.len(),
    ensures
        names_distinct(list.update(at, (list[at].0, state))),
        as_map(list.update(at, (list[at].0, state))) == as_map(list).insert(list[at].0, state),
{
    let name = list[at].0;
    let changed = list.update(at, (name, state));
    assert forall|i: int| 0 <= i < list.len() implies changed[i].0 == list[i].0 by {}
    assert forall|i: int, j: int|
        0 <= i < changed.len() && 0 <= j < changed.len() && changed[i].0
            == changed[j].0 implies i == j by {
        assert(list[i].0 == list[j].0);
    }
    assert forall|other: RecordName| has_name(changed, other) <==> has_name(list, other) by {
        if has_name(changed, other) {
            let i = position(changed, other);
            assert(list[i].0 == other);
        }
        if has_name(list, other) {
            let i = position(list, other);
            assert(changed[i].0 == other);
        }
    }
    lemma_entry(list, at);
    assert forall|other: RecordName| has_name(changed, other) implies as_map(changed)[other]
        == as_map(list).insert(name, state)[other] by {
        let i = position(changed, other);
        lemma_entry(changed, i);
        lemma_entry(list, i);
    }
    assert(as_map(changed) =~= as_map(list).insert(name, state));
}

proof fn lemma_remove(list: Seq<(RecordName, StateView)>, at: int)
    requires
        names_distinct(list),
        0 <= at < list.len(),
    ensures
        names_distinct(list.remove(at)),
        as_map(list.remove(at)) == as_map(list).remove(list[at].0),
{
    let name = list[at].0;
    let shorter = list.remove(at);
    assert forall|i: int| 0 <= i < shorter.len() implies shorter[i] == list[if i < at {
        i
    } else {
        i + 1
    }] by {}
    assert forall|i: int, j: int|
        0 <= i < shorter.len() && 0 <= j < shorter.len() && shorter[i].0
            == shorter[j].0 implies i == j by {
        let a = if i < at { i } else { i + 1 };
        let b = if j < at { j } else { j + 1 };
        assert(list[a].0 == list[b].0);
    }
    assert forall|other: RecordName| has_name(shorter, other) <==> (other != name && has_name(
        list,
        other,
    )) by {
        if has_name(shorter, other) {
            let i = position(shorter, other);
            let a = if i < at { i } else { i + 1 };
            assert(list[a].0 == other);
            assert(list[at].0 == name);
        }
        if other != name && has_name(list, other) {
            let a = position(list, other);
            let i = if a < at { a } else { a - 1 };
            assert(shorter[i].0 == other);
        }
    }
    assert forall|other: RecordName| has_name(shorter, other) implies as_map(shorter)[other]
        == as_map(list).remove(name)[other] by {
        let i = position(shorter, other);
        let a = if i < at { i } else { i + 1 };
        lemma_entry(shorter, i);
        lemma_entry(list, a);
    }
    assert(as_map(shorter) =~= as_map(list).remove(name));
}

/// The records of every attempt seen so far, at most one per caller and
/// key, with the operations that admit, replay and refuse.
#[derive(Debug)]
pub struct IdempotencyGate {
    records: Vec<IdempotencyRecord>,
}

impl View for IdempotencyGate {
    type V = GateView;

    closed spec fn view(&self) -> GateView {
        as_map(entries(self.records@))
    }
}

impl IdempotencyGate {
    #[verifier::type_invariant]
    closed spec fn well_formed(&self) -> bool {
        names_distinct(entries(self.records@))
    }

    /// A gate that has seen no attempt.
    pub fn new() -> (gate: Self)
        ensures
            gate@ == Map::<RecordName, StateView>::empty(),
    {
        let gate = IdempotencyGate { records: Vec::new() };
        assert(gate@ =~= Map::<RecordName, StateView>::empty());
        gate
    }

    /// Moves the records out for a change, leaving none behind; the caller
    /// puts the changed list back.
    fn take_records(&mut self) -> (records: Vec<IdempotencyRecord>)
        ensures
            records@ == old(self).records@,
            final(self).records@ == Seq::<IdempotencyRecord>::empty(),
    {
        let mut records: Vec<IdempotencyRecord> = Vec::new();
        std::mem::swap(&mut self.records, &mut records);
        records
    }

    fn find(&self, owner: u128, key: &IdempotencyKey) -> (at: Option<usize>)
        ensures
            match at {
                Some(i) => i < self.records.len() && self.records[i as int].name() == (
                    owner,
                    key@,
                ),
                None => !has_name(entries(self.records@), (owner, key@)),
            },
    {
        let mut i: usize = 0;
        while i < self.records.len()
            invariant
                i <= self.records.len(),
                forall|k: int| 0 <= k < i ==> self.records[k].name() != (owner, key@),
            decreases self.records.len() - i,
        {
            if self.records[i].owner == owner && self.records[i].key == *key {
                return Some(i);
            }
            i += 1;
        }
        None
    }

    /// What is held under `owner` and `key`, if anything.
    pub fn state_of(&self, owner: u128, key: &IdempotencyKey) -> (state: Option<RecordState>)
        ensures
            held(self@, (owner, key@)) == match state {
                Some(found) => Some(found@),
                None => None,
            },
    {
        proof {
            use_type_invariant(self);
        }
        match self.find(owner, key) {
            Some(i) => {
                proof {
                    lemma_entry(entries(self.records@), i as int);
                }
                Some(self.records[i].state.clone())
            },
            None => None,
        }
    }

    /// Answers an attempt under `owner` and `key`, and files a record in
    /// progress when there was none: check and insert are one step.
    pub fn begin(&mut self, owner: u128, key: &IdempotencyKey) -> (outcome: BeginOutcome)
        ensures
            outcome@ == begin_outcome(old(self)@, (owner, key@)),
            final(self)@ == after_begin(old(self)@, (owner, key@)),
    {
        proof {
            use_type_invariant(&*self);
        }
        let ghost list = entries(self.records@);
        match self.find(owner, key) {
            Some(i) => {
                proof {
                    lemma_entry(list, i as int);
                }
                decide_begin(false, Some(self.records[i].state.clone()))
            },
            None => {
                let record = IdempotencyRecord {
                    owner,
                    key: key.duplicate(),
                    state: RecordState::InProgress,
                };
                let mut records = self.take_records();
                proof {
                    lemma_push(list, (owner, key@), StateView::InProgress);
                    assert(entries(records@.push(record)) =~= list.push(
                        ((owner, key@), StateView::InProgress),
                    ));
                }
                records.push(record);
                self.records = records;
                BeginOutcome::Admitted
            },
        }
    }

    /// Marks the action under `owner` and `key` as finished with `response`.
    ///
    /// Succeeds exactly when the record is in progress. A missing record and
    /// a completed one are refused and nothing changes.
    pub fn complete(&mut self, owner: u128, key: &IdempotencyKey, response: SavedResponse) -> (done:
        Result<(), GateError>)
        ensures
            done == in_progress_check(old(self)@, (owner, key@)),
            final(self)@ == after_complete(old(self)@, (owner, key@), response@),
    {
        proof {
            use_type_invariant(&*self);
        }
        let ghost list = entries(self.records@);
        match self.find(owner, key) {
            Some(i) => {
                proof {
                    lemma_entry(list, i as int);
                }
                match self.records[i].state {
                    RecordState::InProgress => {
                        let record = IdempotencyRecord {
                            owner,
                            key: key.duplicate(),
                            state: RecordState::Completed(response),
                        };
                        let mut records = self.take_records();
                        proof {
                            lemma_update(list, i as int, record.state@);
                            assert(entries(records@.update(i as int, record)) =~= list.update(
                                i as int,
                                (list[i as int].0, record.state@),
                            ));
                        }
                        records.set(i, record);
                        self.records = records;
                        Ok(())
                    },
                    RecordState::Completed(_) => Err(GateError::AlreadyCompleted),
                }
            },
            None => Err(GateError::NotAdmitted),
        }
    }

    /// Gives up the attempt under `owner` and `key`: its record in progress
    /// is removed, so that a later attempt is admitted again.
    ///
    /// Succeeds exactly when the record is in progress. A missing record and
    /// a completed one are refused and nothing changes.
    pub fn abandon(&mut self, owner: u128, key: &IdempotencyKey) -> (done: Result<(), GateError>)
        ensures
            done == in_progress_check(old(self)@, (owner, key@)),
            final(self)@ == after_abandon(old(self)@, (owner, key@)),
    {
        proof {
            use_type_invariant(&*self);
        }
        let ghost list = entries(self.records@);
        match self.find(owner, key) {
            Some(i) => {
                proof {
                    lemma_entry(list, i as int);
                }
                match self.records[i].state {
                    RecordState::InProgress => {
                        let mut records = self.take_records();
                        proof {
                            lemma_remove(list, i as int);
                            assert(entries(records@.remove(i as int)) =~= list.remove(i as int));
                        }
                        let _ = records.remove(i);
                        self.records = records;
                        Ok(())
                    },
                    RecordState::Completed(_) => Err(GateError::AlreadyCompleted),
                }
            },
            None => Err(GateError::NotAdmitted),
        }
    }
}

} // verus!
