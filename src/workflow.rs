use vstd::prelude::*;

use crate::matching::{matches_of, matching_identities, Neighbour};

verus! {

/// How an operation ends.
#[derive(Clone, Copy, Debug, PartialEq, Eq, Structural)]
pub enum Outcome {
    /// The matching records that were found are the answer.
    Matches,
    /// A record with the same hash and scope already exists under this identity.
    AlreadyRecorded(i64),
    /// A new record was created under this identity and indexed.
    Recorded(i64),
    /// The record store failed; nothing was indexed.
    StoreFailure,
}

/// What an operation asks of the record store or of the index next.
#[derive(Clone, Copy, Debug, PartialEq, Eq, Structural)]
pub enum Step {
    /// Fetch the records stored under this identity.
    FetchRecords(i64),
    /// Look for a record with exactly the request's hash and scope.
    FindExisting,
    /// Insert a new record for the request.
    InsertRecord,
    /// Add the request's vector to the index under this identity.
    IndexRecord(i64),
    /// The operation is over.
    Finish(Outcome),
}

/// Where a check-and-record or a save stands, past its searches.
#[derive(Clone, Copy, Debug, PartialEq, Eq, Structural)]
pub enum Stage {
    /// Fetching the records of the matching neighbours (check-and-record) or
    /// looking for the exact record (save).
    Searching,
    /// Inserting the new record.
    Inserting,
    /// Indexing the vector under the new record's identity.
    Indexing(i64),
    /// Over.
    Done(Outcome),
}

/// Where an operation stands once the store has answered its insert.
pub open spec fn after_insert(id: Result<i64, ()>) -> Stage {
    match id {
        Ok(i) => Stage::Indexing(i),
        Err(_) => Stage::Done(Outcome::StoreFailure),
    }
}

/// Where an operation stands once its vector is indexed.
pub open spec fn after_indexed(stage: Stage) -> Stage {
    match stage {
        Stage::Indexing(id) => Stage::Done(Outcome::Recorded(id)),
        _ => stage,
    }
}

/// Where a save stands once the store has answered the search for the exact
/// hash and scope.
pub open spec fn after_existing(found: Result<Option<i64>, ()>) -> Stage {
    match found {
        Ok(Some(id)) => Stage::Done(Outcome::AlreadyRecorded(id)),
        Ok(None) => Stage::Inserting,
        Err(_) => Stage::Done(Outcome::StoreFailure),
    }
}

/// The identity that an operation ends with, if any.
pub open spec fn identity_of(stage: Stage) -> Option<i64> {
    match stage {
        Stage::Done(Outcome::AlreadyRecorded(id)) => Some(id),
        Stage::Done(Outcome::Recorded(id)) => Some(id),
        _ => None,
    }
}

/// The lookup of a hash: fetches the records of each matching neighbour in
/// turn and gathers them. An identity without records (a ghost entry of the
/// index) or whose fetch failed adds nothing.
pub struct Lookup<R> {
    candidates: Vec<i64>,
    cursor: usize,
    found: Vec<R>,
}

impl<R> Lookup<R> {
    /// The identities whose records are fetched, in order.
    pub closed spec fn candidates(&self) -> Seq<i64> {
        self.candidates@
    }

    /// How many candidates have been fetched.
    pub closed spec fn fetched(&self) -> nat {
        self.cursor as nat
    }

    /// The records gathered so far.
    pub closed spec fn found(&self) -> Seq<R> {
        self.found@
    }

    /// What the operation asks next, in its current state.
    pub open spec fn spec_step(&self) -> Step {
        if self.fetched() < self.candidates().len() {
            Step::FetchRecords(self.candidates()[self.fetched() as int])
        } else {
            Step::Finish(Outcome::Matches)
        }
    }

    /// Starts a lookup from the answer of the nearest-neighbour search.
    pub fn new(neighbours: &Vec<Neighbour>) -> (s: Self)
        ensures
            s.candidates() == matches_of(neighbours@),
            s.fetched() == 0,
            s.found() == Seq::<R>::empty(),
    {
        Lookup { candidates: matching_identities(neighbours), cursor: 0, found: Vec::new() }
    }

    /// What the lookup asks next.
    pub fn step(&self) -> (r: Step)
        ensures
            r == self.spec_step(),
    {
        if self.cursor < self.candidates.len() {
            Step::FetchRecords(self.candidates[self.cursor])
        } else {
            Step::Finish(Outcome::Matches)
        }
    }

    /// Takes the answer of a fetch: the records, or `Err` where the store failed.
    pub fn on_records(&mut self, records: Result<Vec<R>, ()>)
        requires
            old(self).spec_step() is FetchRecords,
        ensures
            final(self).candidates() == old(self).candidates(),
            final(self).fetched() == old(self).fetched() + 1,
            final(self).found() == match records {
                Ok(v) => old(self).found() + v@,
                Err(_) => old(self).found(),
            },
    {
        if let Ok(mut v) = records {
            self.found.append(&mut v);
        }
        if self.cursor < self.candidates.len() {
            self.cursor = self.cursor + 1;
        }
    }

    /// The records gathered.
    pub fn into_found(self) -> (r: Vec<R>)
        ensures
            r@ == self.found(),
    {
        self.found
    }
}

/// The check-and-record of a hash: fetches the records of each matching
/// neighbour; where some exist they are the answer, else a new record is
/// inserted and its vector indexed.
pub struct CheckAndRecord<R> {
    candidates: Vec<i64>,
    cursor: usize,
    found: Vec<R>,
    stage: Stage,
}

impl<R> CheckAndRecord<R> {
    /// The identities whose records are fetched, in order.
    pub closed spec fn candidates(&self) -> Seq<i64> {
        self.candidates@
    }

    /// How many candidates have been fetched.
    pub closed spec fn fetched(&self) -> nat {
        self.cursor as nat
    }

    /// The records gathered so far.
    pub closed spec fn found(&self) -> Seq<R> {
        self.found@
    }

    /// Where the operation stands.
    pub closed spec fn stage(&self) -> Stage {
        self.stage
    }

    /// No more candidates were fetched than there are.
    pub open spec fn wf(&self) -> bool {
        self.fetched() <= self.candidates().len()
    }

    /// What the operation asks next, in its current state.
    pub open spec fn spec_step(&self) -> Step {
        match self.stage() {
            Stage::Searching => if self.fetched() < self.candidates().len() {
                Step::FetchRecords(self.candidates()[self.fetched() as int])
            } else if self.found().len() > 0 {
                Step::Finish(Outcome::Matches)
            } else {
                Step::InsertRecord
            },
            Stage::Inserting => Step::InsertRecord,
            Stage::Indexing(id) => Step::IndexRecord(id),
            Stage::Done(o) => Step::Finish(o),
        }
    }

    /// Starts from the answer of the nearest-neighbour search.
    pub fn new(neighbours: &Vec<Neighbour>) -> (s: Self)
        ensures
            s.candidates() == matches_of(neighbours@),
            s.fetched() == 0,
            s.found() == Seq::<R>::empty(),
            s.stage() == Stage::Searching,
            s.wf(),
    {
        CheckAndRecord {
            candidates: matching_identities(neighbours),
            cursor: 0,
            found: Vec::new(),
            stage: Stage::Searching,
        }
    }

    /// What the operation asks next.
    pub fn step(&self) -> (r: Step)
        ensures
            r == self.spec_step(),
    {
        match self.stage {
            Stage::Searching => if self.cursor < self.candidates.len() {
                Step::FetchRecords(self.candidates[self.cursor])
            } else if self.found.len() > 0 {
                Step::Finish(Outcome::Matches)
            } else {
                Step::InsertRecord
            },
            Stage::Inserting => Step::InsertRecord,
            Stage::Indexing(id) => Step::IndexRecord(id),
            Stage::Done(o) => Step::Finish(o),
        }
    }

    /// Takes the answer of a fetch. A failed fetch ends the operation.
    pub fn on_records(&mut self, records: Result<Vec<R>, ()>)
        requires
            old(self).spec_step() is FetchRecords,
        ensures
            final(self).wf(),
            final(self).candidates() == old(self).candidates(),
            match records {
                Ok(v) => final(self).found() == old(self).found() + v@
                    && final(self).fetched() == old(self).fetched() + 1
                    && final(self).stage() == Stage::Searching,
                Err(_) => final(self).found() == old(self).found()
                    && final(self).fetched() == old(self).fetched()
                    && final(self).stage() == Stage::Done(Outcome::StoreFailure),
            },
    {
        match records {
            Ok(mut v) => {
                self.found.append(&mut v);
                if self.cursor < self.candidates.len() {
                    self.cursor = self.cursor + 1;
                }
            },
            Err(_) => {
                self.stage = Stage::Done(Outcome::StoreFailure);
            },
        }
    }

    /// Takes the identity that the store gave the new record, or `Err` where
    /// the insert failed, which ends the operation.
    pub fn on_inserted(&mut self, id: Result<i64, ()>)
        requires
            old(self).spec_step() is InsertRecord,
        ensures
            final(self).candidates() == old(self).candidates(),
            final(self).fetched() == old(self).fetched(),
            final(self).found() == old(self).found(),
            final(self).stage() == after_insert(id),
    {
        self.stage = match id {
            Ok(i) => Stage::Indexing(i),
            Err(_) => Stage::Done(Outcome::StoreFailure),
        };
    }

    /// Notes that the vector was indexed under the new identity.
    pub fn on_indexed(&mut self)
        requires
            old(self).spec_step() is IndexRecord,
        ensures
            final(self).candidates() == old(self).candidates(),
            final(self).fetched() == old(self).fetched(),
            final(self).found() == old(self).found(),
            final(self).stage() == Stage::Done(
                Outcome::Recorded(old(self).spec_step()->IndexRecord_0),
            ),
    {
        if let Stage::Indexing(id) = self.stage {
            self.stage = Stage::Done(Outcome::Recorded(id));
        }
    }

    /// The records gathered.
    pub fn into_found(self) -> (r: Vec<R>)
        ensures
            r@ == self.found(),
    {
        self.found
    }
}

/// The law of a check-and-record that keeps it from recording a duplicate:
/// it asks to insert only after every matching neighbour was fetched and none
/// had a record.
pub proof fn lemma_insert_only_when_unseen<R>(s: CheckAndRecord<R>)
    requires
        s.wf(),
        s.stage() == Stage::Searching,
        s.spec_step() is InsertRecord,
    ensures
        s.fetched() == s.candidates().len(),
        s.found().len() == 0,
{
}

/// The unconditional save of a hash: looks for a record with exactly the
/// same hash and scope; where there is one its identity is the answer, else a
/// new record is inserted and its vector indexed. The index is not searched.
pub struct SaveHash {
    stage: Stage,
}

/// What a save asks next, at a given stage.
pub open spec fn save_step(stage: Stage) -> Step {
    match stage {
        Stage::Searching => Step::FindExisting,
        Stage::Inserting => Step::InsertRecord,
        Stage::Indexing(id) => Step::IndexRecord(id),
        Stage::Done(o) => Step::Finish(o),
    }
}

impl SaveHash {
    /// Where the save stands.
    pub closed spec fn stage(&self) -> Stage {
        self.stage
    }

    /// Starts a save.
    pub fn new() -> (s: Self)
        ensures
            s.stage() == Stage::Searching,
    {
        SaveHash { stage: Stage::Searching }
    }

    /// What the save asks next.
    pub fn step(&self) -> (r: Step)
        ensures
            r == save_step(self.stage()),
    {
        match self.stage {
            Stage::Searching => Step::FindExisting,
            Stage::Inserting => Step::InsertRecord,
            Stage::Indexing(id) => Step::IndexRecord(id),
            Stage::Done(o) => Step::Finish(o),
        }
    }

    /// Takes the answer of the search for the exact hash and scope: the
    /// identity of the record found, none, or `Err` where the store failed.
    pub fn on_existing(&mut self, found: Result<Option<i64>, ()>)
        requires
            old(self).stage() == Stage::Searching,
        ensures
            final(self).stage() == after_existing(found),
    {
        self.stage = match found {
            Ok(Some(id)) => Stage::Done(Outcome::AlreadyRecorded(id)),
            Ok(None) => Stage::Inserting,
            Err(_) => Stage::Done(Outcome::StoreFailure),
        };
    }

    /// Takes the identity that the store gave the new record, or `Err` where
    /// the insert failed.
    pub fn on_inserted(&mut self, id: Result<i64, ()>)
        requires
            old(self).stage() == Stage::Inserting,
        ensures
            final(self).stage() == after_insert(id),
    {
        self.stage = match id {
            Ok(i) => Stage::Indexing(i),
            Err(_) => Stage::Done(Outcome::StoreFailure),
        };
    }

    /// Notes that the vector was indexed under the new identity.
    pub fn on_indexed(&mut self)
        requires
            old(self).stage() is Indexing,
        ensures
            final(self).stage() == after_indexed(old(self).stage()),
    {
        if let Stage::Indexing(id) = self.stage {
            self.stage = Stage::Done(Outcome::Recorded(id));
        }
    }
}

/// A row of the record store as the exact search sees it: hash, scope and
/// identity.
pub type StoredRow = (Seq<char>, i64, i64);

/// The identity of the first row with this hash and scope.
pub open spec fn find_row(rows: Seq<StoredRow>, hash: Seq<char>, scope: i64) -> Option<i64>
    decreases rows.len(),
{
    if rows.len() == 0 {
        None
    } else if rows[0].0 == hash && rows[0].1 == scope {
        Some(rows[0].2)
    } else {
        find_row(rows.drop_first(), hash, scope)
    }
}

/// A whole save run against a store holding `rows` that answers truthfully
/// and gives a new record the identity `fresh`: the rows afterwards and the
/// final stage.
pub open spec fn save_run(rows: Seq<StoredRow>, hash: Seq<char>, scope: i64, fresh: i64) -> (
    Seq<StoredRow>,
    Stage,
) {
    let first = after_existing(Ok(find_row(rows, hash, scope)));
    if first == Stage::Inserting {
        (rows.push((hash, scope, fresh)), after_indexed(after_insert(Ok(fresh))))
    } else {
        (rows, first)
    }
}

proof fn lemma_find_row_pushed(rows: Seq<StoredRow>, hash: Seq<char>, scope: i64, fresh: i64)
    requires
        find_row(rows, hash, scope) is None,
    ensures
        find_row(rows.push((hash, scope, fresh)), hash, scope) == Some(fresh),
    decreases rows.len(),
{
    let pushed = rows.push((hash, scope, fresh));
    if rows.len() > 0 {
        assert(pushed.drop_first() =~= rows.drop_first().push((hash, scope, fresh)));
        lemma_find_row_pushed(rows.drop_first(), hash, scope, fresh);
    }
}

/// Saving the same hash and scope twice gives the same identity both times,
/// adds at most one row, and the second save adds none.
pub proof fn lemma_save_idempotent(
    rows: Seq<StoredRow>,
    hash: Seq<char>,
    scope: i64,
    fresh1: i64,
    fresh2: i64,
)
    ensures
        identity_of(save_run(rows, hash, scope, fresh1).1) is Some,
        identity_of(save_run(save_run(rows, hash, scope, fresh1).0, hash, scope, fresh2).1)
            == identity_of(save_run(rows, hash, scope, fresh1).1),
        save_run(save_run(rows, hash, scope, fresh1).0, hash, scope, fresh2).0 == save_run(
            rows,
            hash,
            scope,
            fresh1,
        ).0,
        save_run(rows, hash, scope, fresh1).0.len() <= rows.len() + 1,
{
    if find_row(rows, hash, scope) is None {
        lemma_find_row_pushed(rows, hash, scope, fresh1);
    }
}

} // verus!
