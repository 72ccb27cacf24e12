//! The table of container records under one root directory.
//!
//! The table is the runtime's picture of what is kept on disk: one record for
//! each identifier, in the order of creation, none of them still `Creating`.
//! A caller loads it, lets a command change it, and writes the change back.

use vstd::prelude::*;
use crate::container::{ContainerRecord, RecordView};
use crate::error::{Cause, Error};
use crate::lifecycle::{Operation, Status};
use crate::process::main_process::{MainProcess, MainStage};

verus! {

/// Whether some record has the identifier `id`.
pub open spec fn holds(records: Seq<RecordView>, id: Seq<char>) -> bool {
    exists|i: int| 0 <= i < records.len() && (#[trigger] records[i]).id == id
}

/// Where the record with the identifier `id` stands, if there is one.
pub open spec fn position(records: Seq<RecordView>, id: Seq<char>) -> int {
    choose|i: int| 0 <= i < records.len() && (#[trigger] records[i]).id == id
}

/// The record with the identifier `id`, if there is one.
pub open spec fn lookup(records: Seq<RecordView>, id: Seq<char>) -> Option<RecordView> {
    if holds(records, id) {
        Some(records[position(records, id)])
    } else {
        None
    }
}

/// What holds of every table: no two records share an identifier, and no
/// record is in the status `Creating`.
pub open spec fn well_formed(records: Seq<RecordView>) -> bool {
    &&& forall|i: int, j: int|
        0 <= i < j < records.len() ==> (#[trigger] records[i]).id != (#[trigger] records[j]).id
    &&& forall|i: int| 0 <= i < records.len() ==> (#[trigger] records[i]).status != Status::Creating
}

/// The table without the record of `id`.
pub open spec fn without(records: Seq<RecordView>, id: Seq<char>) -> Seq<RecordView> {
    records.remove(position(records, id))
}

/// The table with the record of `id` put into `status`.
pub open spec fn with_status(records: Seq<RecordView>, id: Seq<char>, status: Status) -> Seq<
    RecordView,
> {
    let at = position(records, id);
    records.update(at, RecordView { status, ..records[at] })
}

/// What a bootstrap came to: the main process's side of the handshake, the
/// init process that it brought up, and the time of creation in seconds since
/// the epoch.
#[derive(Clone, Copy, Debug)]
pub struct Launch {
    /// The main process, after the last event of the handshake.
    pub handshake: MainProcess,
    /// The process identifier of the init process.
    pub pid: i32,
    /// When the bootstrap ended.
    pub created: u64,
}

/// Why no container may be recorded for `launch`, if none may. Without a
/// launch no process could be brought up, which is a want of resources. A
/// failed handshake keeps its cause. One that is not over has skipped a step
/// of the protocol.
pub open spec fn launch_fault(launch: Option<Launch>) -> Option<Cause> {
    match launch {
        None => Some(Cause::Resource),
        Some(l) => match l.handshake@.stage {
            MainStage::Completed => None,
            MainStage::Failed(cause) => Some(cause),
            _ => Some(Cause::Protocol),
        },
    }
}

/// Why `id` cannot be created, if it cannot: the identifier is taken, or the
/// bootstrap did not complete.
pub open spec fn creation_fault(records: Seq<RecordView>, id: Seq<char>, launch: Option<Launch>)
    -> Option<Error> {
    if holds(records, id) {
        Some(Error::InvalidStateError)
    } else {
        match launch_fault(launch) {
            Some(cause) => Some(Error::BootstrapFailed(cause)),
            None => None,
        }
    }
}

/// Why `operation` cannot be applied to `id`, if it cannot: there is no such
/// record, or its status forbids the operation.
pub open spec fn move_fault(records: Seq<RecordView>, id: Seq<char>, operation: Operation)
    -> Option<Error> {
    match lookup(records, id) {
        None => Some(Error::NotFound),
        Some(record) => if record.status.after(operation).is_none() {
            Some(Error::InvalidStateError)
        } else {
            None
        },
    }
}

/// Why `id` cannot be deleted, if it cannot: there is no such record, or it is
/// not stopped and no force is used.
pub open spec fn deletion_fault(records: Seq<RecordView>, id: Seq<char>, force: bool) -> Option<
    Error,
> {
    match lookup(records, id) {
        None => Some(Error::NotFound),
        Some(record) => if record.status.deletable(force) {
            None
        } else {
            Some(Error::InvalidStateError)
        },
    }
}

/// A record found at `i` is the record of its identifier.
pub proof fn lemma_found(records: Seq<RecordView>, id: Seq<char>, i: int)
    requires
        well_formed(records),
        0 <= i < records.len(),
        records[i].id == id,
    ensures
        holds(records, id),
        position(records, id) == i,
        lookup(records, id) == Some(records[i]),
{
    let p = position(records, id);
    assert(0 <= p < records.len() && records[p].id == id);
    if p < i {
        assert(records[p].id != records[i].id);
    } else if i < p {
        assert(records[i].id != records[p].id);
    }
}

/// The table of container records.
pub struct StateStore {
    records: Vec<ContainerRecord>,
}

impl View for StateStore {
    type V = Seq<RecordView>;

    closed spec fn view(&self) -> Seq<RecordView> {
        Seq::new(self.records.len() as nat, |i: int| self.records[i]@)
    }
}

/// The records of a vector, as plain values.
spec fn views(records: Vec<ContainerRecord>) -> Seq<RecordView> {
    Seq::new(records.len() as nat, |i: int| records[i]@)
}

/// Searches the records for the identifier `id`.
fn find(records: &Vec<ContainerRecord>, id: &String) -> (found: Option<usize>)
    ensures
        match found {
            Some(i) => i < records.len() && views(*records)[i as int].id == id@,
            None => !holds(views(*records), id@),
        },
{
    let mut i: usize = 0;
    while i < records.len()
        invariant
            i <= records.len(),
            forall|j: int| 0 <= j < i ==> (#[trigger] views(*records)[j]).id != id@,
        decreases records.len() - i,
    {
        if *records[i].id() == *id {
            return Some(i);
        }
        i = i + 1;
    }
    None
}

/// Why no container may be recorded for `launch`, if none may.
fn fault_of(launch: &Option<Launch>) -> (fault: Option<Cause>)
    ensures
        fault == launch_fault(*launch),
{
    match launch {
        None => Some(Cause::Resource),
        Some(l) => match l.handshake.stage() {
            MainStage::Completed => None,
            MainStage::Failed(cause) => Some(cause),
            _ => Some(Cause::Protocol),
        },
    }
}

impl StateStore {
    #[verifier::type_invariant]
    spec fn inv(self) -> bool {
        well_formed(self@)
    }

    /// A table without records.
    pub fn new() -> (store: Self)
        ensures
            store@ == Seq::<RecordView>::empty(),
    {
        let store = StateStore { records: Vec::new() };
        assert(store@ =~= Seq::<RecordView>::empty());
        store
    }

    /// The number of records.
    pub fn len(&self) -> (n: usize)
        ensures
            n == self@.len(),
            well_formed(self@),
    {
        proof {
            use_type_invariant(self);
        }
        self.records.len()
    }

    /// Whether some record has the identifier `id`.
    pub fn contains(&self, id: &str) -> (found: bool)
        ensures
            found == holds(self@, id@),
    {
        let key: String = id.to_owned();
        assert(self@ == views(self.records));
        find(&self.records, &key).is_some()
    }

    /// The record of `id` as it stands, or `NotFound`. The table is left as
    /// it is, so that asking again gives the same answer.
    pub fn state(&self, id: &str) -> (found: Result<ContainerRecord, Error>)
        ensures
            well_formed(self@),
            match found {
                Ok(record) => lookup(self@, id@) == Some(record@) && record@.status
                    != Status::Creating,
                Err(e) => e == Error::NotFound && lookup(self@, id@).is_none(),
            },
    {
        proof {
            use_type_invariant(self);
        }
        let key: String = id.to_owned();
        assert(self@ == views(self.records));
        match find(&self.records, &key) {
            Some(i) => {
                proof {
                    lemma_found(self@, id@, i as int);
                }
                Ok(self.records[i].clone())
            },
            None => Err(Error::NotFound),
        }
    }

    /// All records, in the order of their creation.
    pub fn list(&self) -> (listing: Vec<ContainerRecord>)
        ensures
            well_formed(self@),
            listing@.len() == self@.len(),
            forall|i: int| 0 <= i < listing@.len() ==> (#[trigger] listing@[i])@ == self@[i],
    {
        proof {
            use_type_invariant(self);
        }
        let mut listing: Vec<ContainerRecord> = Vec::new();
        let mut i: usize = 0;
        while i < self.records.len()
            invariant
                i <= self.records.len(),
                listing@.len() == i,
                forall|j: int| 0 <= j < i ==> (#[trigger] listing@[j])@ == self@[j],
            decreases self.records.len() - i,
        {
            listing.push(self.records[i].clone());
            i = i + 1;
        }
        listing
    }

    /// Takes in a record that was kept earlier. A record in the status
    /// `Creating`, or one whose identifier is taken, is refused with
    /// `InvalidStateError`, and the table stays as it is.
    pub fn restore(&mut self, record: ContainerRecord) -> (done: Result<(), Error>)
        ensures
            well_formed(final(self)@),
            match done {
                Ok(_) => {
                    &&& record@.status != Status::Creating
                    &&& !holds(old(self)@, record@.id)
                    &&& final(self)@ == old(self)@.push(record@)
                },
                Err(e) => {
                    &&& e == Error::InvalidStateError
                    &&& record@.status == Status::Creating || holds(old(self)@, record@.id)
                    &&& final(self)@ == old(self)@
                },
            },
    {
        proof {
            use_type_invariant(&*self);
        }
        assert(self@ == views(self.records));
        let taken = find(&self.records, record.id()).is_some();
        match record.status() {
            Status::Creating => Err(Error::InvalidStateError),
            _ => {
                if taken {
                    Err(Error::InvalidStateError)
                } else {
                    self.append(record);
                    Ok(())
                }
            },
        }
    }

    /// Adds a record whose identifier is free.
    fn append(&mut self, record: ContainerRecord)
        requires
            record@.status != Status::Creating,
            !holds(old(self)@, record@.id),
        ensures
            final(self)@ == old(self)@.push(record@),
            well_formed(final(self)@),
    {
        proof {
            use_type_invariant(&*self);
        }
        let ghost before = self@;
        let mut records: Vec<ContainerRecord> = Vec::new();
        std::mem::swap(&mut records, &mut self.records);
        assert(views(records) =~= before);
        records.push(record);
        assert(views(records) =~= before.push(record@));
        assert(well_formed(views(records))) by {
            let after = views(records);
            assert forall|i: int, j: int| 0 <= i < j < after.len() implies (#[trigger] after[i]).id
                != (#[trigger] after[j]).id by {
                if j == before.len() {
                    assert(before[i].id != record@.id);
                } else {
                    assert(before[i].id != before[j].id);
                }
            }
        }
        self.records = records;
        assert(self@ =~= before.push(record@));
    }

    /// Records the container that a bootstrap brought up, in the status
    /// `Created`. This is the only way in which a record comes to be: it goes
    /// from absent to `Created` in one step.
    ///
    /// The record is made if and only if the identifier is free and the
    /// handshake of `launch` is complete. A taken identifier is an
    /// `InvalidStateError`; a bootstrap that is missing, failed or unfinished
    /// is `BootstrapFailed` with its cause. On any failure the table stays as
    /// it is.
    pub fn create(&mut self, id: &str, bundle: &str, launch: Option<Launch>) -> (made: Result<
        ContainerRecord,
        Error,
    >)
        ensures
            well_formed(final(self)@),
            match made {
                Ok(record) => {
                    &&& creation_fault(old(self)@, id@, launch).is_none()
                    &&& launch matches Some(l)
                    &&& record@ == (RecordView {
                        id: id@,
                        status: Status::Created,
                        pid: l.pid as int,
                        created: l.created as int,
                        bundle: bundle@,
                    })
                    &&& final(self)@ == old(self)@.push(record@)
                },
                Err(e) => creation_fault(old(self)@, id@, launch) == Some(e) && final(self)@
                    == old(self)@,
            },
    {
        proof {
            use_type_invariant(&*self);
        }
        let key: String = id.to_owned();
        assert(self@ == views(self.records));
        if find(&self.records, &key).is_some() {
            return Err(Error::InvalidStateError);
        }
        if let Some(cause) = fault_of(&launch) {
            return Err(Error::BootstrapFailed(cause));
        }
        match launch {
            Some(l) => {
                let record = ContainerRecord::new(
                    key,
                    Status::Created,
                    l.pid,
                    l.created,
                    bundle.to_owned(),
                );
                self.append(record.clone());
                Ok(record)
            },
            None => Err(Error::BootstrapFailed(Cause::Resource)),
        }
    }

    /// Applies `operation` to the record of `id` and returns the record as it
    /// then stands. Without such a record this is `NotFound`; where the
    /// record's status forbids the operation it is `InvalidStateError`. On
    /// failure the table stays as it is, and on success no other record
    /// changes.
    pub fn transition(&mut self, id: &str, operation: Operation) -> (moved: Result<
        ContainerRecord,
        Error,
    >)
        ensures
            well_formed(final(self)@),
            match moved {
                Ok(record) => {
                    &&& move_fault(old(self)@, id@, operation).is_none()
                    &&& lookup(old(self)@, id@) matches Some(before)
                    &&& before.status.after(operation) == Some(record@.status)
                    &&& record@ == (RecordView { status: record@.status, ..before })
                    &&& final(self)@ == with_status(old(self)@, id@, record@.status)
                },
                Err(e) => move_fault(old(self)@, id@, operation) == Some(e) && final(self)@
                    == old(self)@,
            },
    {
        proof {
            use_type_invariant(&*self);
        }
        let ghost before = self@;
        let key: String = id.to_owned();
        assert(self@ == views(self.records));
        let at = match find(&self.records, &key) {
            Some(i) => i,
            None => {
                return Err(Error::NotFound);
            },
        };
        proof {
            lemma_found(before, id@, at as int);
        }
        let next = match self.records[at].status().apply(operation) {
            Ok(status) => status,
            Err(e) => {
                return Err(e);
            },
        };
        let record = self.records[at].with_status(next);
        let mut records: Vec<ContainerRecord> = Vec::new();
        std::mem::swap(&mut records, &mut self.records);
        assert(views(records) =~= before);
        records.set(at, record.clone());
        assert(views(records) =~= with_status(before, id@, next));
        assert(well_formed(views(records))) by {
            let after = views(records);
            assert forall|i: int, j: int| 0 <= i < j < after.len() implies (#[trigger] after[i]).id
                != (#[trigger] after[j]).id by {
                assert(before[i].id != before[j].id);
            }
            assert forall|i: int| 0 <= i < after.len() implies (#[trigger] after[i]).status
                != Status::Creating by {
                assert(before[i].status != Status::Creating);
            }
        }
        self.records = records;
        assert(self@ =~= with_status(before, id@, next));
        Ok(record)
    }

    /// Removes the record of `id` and returns it. A record that is not
    /// stopped is removed only with `force`: without it this is
    /// `InvalidStateError`. Without such a record it is `NotFound`. On failure
    /// the table stays as it is, and on success no other record changes.
    pub fn delete(&mut self, id: &str, force: bool) -> (removed: Result<ContainerRecord, Error>)
        ensures
            well_formed(final(self)@),
            match removed {
                Ok(record) => {
                    &&& deletion_fault(old(self)@, id@, force).is_none()
                    &&& lookup(old(self)@, id@) == Some(record@)
                    &&& final(self)@ == without(old(self)@, id@)
                    &&& !holds(final(self)@, id@)
                },
                Err(e) => deletion_fault(old(self)@, id@, force) == Some(e) && final(self)@
                    == old(self)@,
            },
    {
        proof {
            use_type_invariant(&*self);
        }
        let ghost before = self@;
        let key: String = id.to_owned();
        assert(self@ == views(self.records));
        let at = match find(&self.records, &key) {
            Some(i) => i,
            None => {
                return Err(Error::NotFound);
            },
        };
        proof {
            lemma_found(before, id@, at as int);
        }
        if !self.records[at].status().can_delete(force) {
            return Err(Error::InvalidStateError);
        }
        let mut records: Vec<ContainerRecord> = Vec::new();
        std::mem::swap(&mut records, &mut self.records);
        assert(views(records) =~= before);
        let record = records.remove(at);
        assert(views(records) =~= without(before, id@));
        proof {
            law_delete_touches_one_record(before, id@);
        }
        self.records = records;
        assert(self@ =~= without(before, id@));
        Ok(record)
    }
}

/// Deleting a record leaves a table without that identifier, and every other
/// record as it was.
pub proof fn law_delete_touches_one_record(records: Seq<RecordView>, id: Seq<char>)
    requires
        well_formed(records),
        holds(records, id),
    ensures
        well_formed(without(records, id)),
        !holds(without(records, id), id),
        forall|other: Seq<char>|
            other != id ==> #[trigger] lookup(without(records, id), other) == lookup(
                records,
                other,
            ),
{
    let at = position(records, id);
    let rest = without(records, id);
    assert forall|i: int, j: int| 0 <= i < j < rest.len() implies (#[trigger] rest[i]).id
        != (#[trigger] rest[j]).id by {
        let a = if i < at { i } else { i + 1 };
        let b = if j < at { j } else { j + 1 };
        assert(records[a].id != records[b].id);
    }
    assert forall|i: int| 0 <= i < rest.len() implies (#[trigger] rest[i]).status
        != Status::Creating by {
        let a = if i < at { i } else { i + 1 };
        assert(records[a].status != Status::Creating);
    }
    if holds(rest, id) {
        let p = position(rest, id);
        let a = if p < at { p } else { p + 1 };
        lemma_found(records, id, a);
    }
    assert forall|other: Seq<char>| other != id implies #[trigger] lookup(rest, other) == lookup(
        records,
        other,
    ) by {
        if holds(records, other) {
            let p = position(records, other);
            let q = if p < at { p } else { p - 1 };
            assert(rest[q] == records[p]);
            lemma_found(rest, other, q);
        } else if holds(rest, other) {
            let q = position(rest, other);
            let p = if q < at { q } else { q + 1 };
            assert(records[p].id == other);
        }
    }
}

/// A move changes the status of one record, and nothing else: the record
/// keeps its identifier and its place, and every other record is as it was.
pub proof fn law_move_touches_one_record(records: Seq<RecordView>, id: Seq<char>, status: Status)
    requires
        well_formed(records),
        holds(records, id),
        status != Status::Creating,
    ensures
        well_formed(with_status(records, id, status)),
        lookup(with_status(records, id, status), id) == Some(
            RecordView { status, ..lookup(records, id).unwrap() },
        ),
        forall|other: Seq<char>|
            other != id ==> #[trigger] lookup(with_status(records, id, status), other) == lookup(
                records,
                other,
            ),
{
    let at = position(records, id);
    let next = with_status(records, id, status);
    assert forall|i: int, j: int| 0 <= i < j < next.len() implies (#[trigger] next[i]).id
        != (#[trigger] next[j]).id by {
        assert(records[i].id != records[j].id);
    }
    assert forall|i: int| 0 <= i < next.len() implies (#[trigger] next[i]).status
        != Status::Creating by {
        assert(records[i].status != Status::Creating);
    }
    lemma_found(next, id, at);
    assert forall|other: Seq<char>| other != id implies #[trigger] lookup(next, other) == lookup(
        records,
        other,
    ) by {
        if holds(records, other) {
            let p = position(records, other);
            assert(next[p] == records[p]);
            lemma_found(next, other, p);
        } else if holds(next, other) {
            let q = position(next, other);
            assert(records[q].id == other);
        }
    }
}

/// Creating a record adds it under its identifier, and every other record is
/// as it was.
pub proof fn law_create_touches_one_record(records: Seq<RecordView>, record: RecordView)
    requires
        well_formed(records),
        !holds(records, record.id),
        record.status != Status::Creating,
    ensures
        well_formed(records.push(record)),
        lookup(records.push(record), record.id) == Some(record),
        forall|other: Seq<char>|
            other != record.id ==> #[trigger] lookup(records.push(record), other) == lookup(
                records,
                other,
            ),
{
    let next = records.push(record);
    assert forall|i: int, j: int| 0 <= i < j < next.len() implies (#[trigger] next[i]).id
        != (#[trigger] next[j]).id by {
        if j == records.len() {
            assert(records[i].id != record.id);
        } else {
            assert(records[i].id != records[j].id);
        }
    }
    assert forall|i: int| 0 <= i < next.len() implies (#[trigger] next[i]).status
        != Status::Creating by {
        if i < records.len() {
            assert(records[i].status != Status::Creating);
        }
    }
    lemma_found(next, record.id, records.len() as int);
    assert forall|other: Seq<char>| other != record.id implies #[trigger] lookup(next, other)
        == lookup(records, other) by {
        if holds(records, other) {
            let p = position(records, other);
            assert(next[p] == records[p]);
            lemma_found(next, other, p);
        } else if holds(next, other) {
            let q = position(next, other);
            assert(records[q].id == other);
        }
    }
}

/// No record of a table is ever in the status `Creating`.
pub proof fn law_no_record_is_creating(records: Seq<RecordView>, id: Seq<char>)
    requires
        well_formed(records),
    ensures
        lookup(records, id) matches Some(record) ==> record.status != Status::Creating,
{
}

} // verus!
