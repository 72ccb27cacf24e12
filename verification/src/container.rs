//! The record that the runtime keeps of one container.

use vstd::prelude::*;
use crate::lifecycle::Status;

verus! {

/// What a container record is, as a plain value.
pub struct RecordView {
    /// The identifier, which no other record under the same root has.
    pub id: Seq<char>,
    /// The lifecycle status.
    pub status: Status,
    /// The process identifier of the init process.
    pub pid: int,
    /// When the container was created, in seconds since the epoch.
    pub created: int,
    /// The bundle that the container was created from.
    pub bundle: Seq<char>,
}

/// The kept state of one container.
#[derive(Debug, PartialEq, Eq)]
pub struct ContainerRecord {
    id: String,
    status: Status,
    pid: i32,
    created: u64,
    bundle: String,
}

impl View for ContainerRecord {
    type V = RecordView;

    closed spec fn view(&self) -> RecordView {
        RecordView {
            id: self.id@,
            status: self.status,
            pid: self.pid as int,
            created: self.created as int,
            bundle: self.bundle@,
        }
    }
}

impl Clone for ContainerRecord {
    fn clone(&self) -> (copy: Self)
        ensures
            copy@ == self@,
    {
        ContainerRecord {
            id: self.id.clone(),
            status: self.status,
            pid: self.pid,
            created: self.created,
            bundle: self.bundle.clone(),
        }
    }
}

impl ContainerRecord {
    /// A record with the given contents.
    pub fn new(id: String, status: Status, pid: i32, created: u64, bundle: String) -> (record: Self)
        ensures
            record@ == (RecordView {
                id: id@,
                status,
                pid: pid as int,
                created: created as int,
                bundle: bundle@,
            }),
    {
        ContainerRecord { id, status, pid, created, bundle }
    }

    /// The identifier.
    pub fn id(&self) -> (id: &String)
        ensures
            id@ == self@.id,
    {
        &self.id
    }

    /// The lifecycle status.
    pub fn status(&self) -> (status: Status)
        ensures
            status == self@.status,
    {
        self.status
    }

    /// The process identifier of the init process.
    pub fn pid(&self) -> (pid: i32)
        ensures
            pid == self@.pid,
    {
        self.pid
    }

    /// When the container was created, in seconds since the epoch.
    pub fn created(&self) -> (created: u64)
        ensures
            created == self@.created,
    {
        self.created
    }

    /// The bundle that the container was created from.
    pub fn bundle(&self) -> (bundle: &String)
        ensures
            bundle@ == self@.bundle,
    {
        &self.bundle
    }

    /// The same record in another status.
    pub fn with_status(&self, status: Status) -> (record: Self)
        ensures
            record@ == (RecordView { status, ..self@ }),
    {
        ContainerRecord {
            id: self.id.clone(),
            status,
            pid: self.pid,
            created: self.created,
            bundle: self.bundle.clone(),
        }
    }
}

} // verus!
