//! The statuses of a container and the moves between them.
//!
//! A container is created, runs, may be paused and resumed, and stops:
//!
//! ```text
//! Creating -> Created -> Running <-> Paused
//!                           |          |
//!                           +-> Stopped <-+
//! ```

use vstd::prelude::*;
use crate::error::Error;

verus! {

/// The lifecycle status of a container.
#[derive(Clone, Copy, Debug, PartialEq, Eq, Structural)]
pub enum Status {
    /// The bootstrap is under way. No record is ever kept in this status.
    Creating,
    /// The bootstrap is complete; the payload has not been started.
    Created,
    /// The payload runs.
    Running,
    /// The payload is frozen.
    Paused,
    /// The payload has exited or was killed.
    Stopped,
}

/// What moves a container from one status to another.
#[derive(Clone, Copy, Debug, PartialEq, Eq, Structural)]
pub enum Operation {
    /// Start the payload.
    Start,
    /// Freeze the payload.
    Pause,
    /// Thaw the payload.
    Resume,
    /// Kill the payload.
    Kill,
    /// The payload exited by itself.
    Exit,
}

impl Status {
    /// The status that `operation` leads to, or `None` where this status
    /// forbids it. Starting takes a created container to running; pausing and
    /// resuming toggle between running and paused; a kill or an exit stops a
    /// container that runs, paused or not.
    pub open spec fn after(self, operation: Operation) -> Option<Status> {
        match (self, operation) {
            (Status::Created, Operation::Start) => Some(Status::Running),
            (Status::Running, Operation::Pause) => Some(Status::Paused),
            (Status::Paused, Operation::Resume) => Some(Status::Running),
            (Status::Running, Operation::Kill) => Some(Status::Stopped),
            (Status::Paused, Operation::Kill) => Some(Status::Stopped),
            (Status::Running, Operation::Exit) => Some(Status::Stopped),
            (Status::Paused, Operation::Exit) => Some(Status::Stopped),
            _ => None,
        }
    }

    /// Whether a record in this status may be deleted: a stopped one always,
    /// any other only by force.
    pub open spec fn deletable(self, force: bool) -> bool {
        self == Status::Stopped || force
    }

    /// How far along the lifecycle the status lies. Running and paused lie
    /// equally far.
    pub open spec fn phase(self) -> nat {
        match self {
            Status::Creating => 0,
            Status::Created => 1,
            Status::Running => 2,
            Status::Paused => 2,
            Status::Stopped => 3,
        }
    }

    /// Applies `operation`: the status that it leads to, or
    /// `InvalidStateError` where this status forbids it.
    pub fn apply(self, operation: Operation) -> (next: Result<Status, Error>)
        ensures
            next == match self.after(operation) {
                Some(status) => Ok::<Status, Error>(status),
                None => Err(Error::InvalidStateError),
            },
    {
        match (self, operation) {
            (Status::Created, Operation::Start) => Ok(Status::Running),
            (Status::Running, Operation::Pause) => Ok(Status::Paused),
            (Status::Paused, Operation::Resume) => Ok(Status::Running),
            (Status::Running, Operation::Kill) => Ok(Status::Stopped),
            (Status::Paused, Operation::Kill) => Ok(Status::Stopped),
            (Status::Running, Operation::Exit) => Ok(Status::Stopped),
            (Status::Paused, Operation::Exit) => Ok(Status::Stopped),
            _ => Err(Error::InvalidStateError),
        }
    }

    /// The name under which the status is kept and reported.
    pub open spec fn name_of(self) -> Seq<char> {
        match self {
            Status::Creating => "creating"@,
            Status::Created => "created"@,
            Status::Running => "running"@,
            Status::Paused => "paused"@,
            Status::Stopped => "stopped"@,
        }
    }

    /// The status that goes by `name`, if one does.
    pub open spec fn named(name: Seq<char>) -> Option<Status> {
        if name == "creating"@ {
            Some(Status::Creating)
        } else if name == "created"@ {
            Some(Status::Created)
        } else if name == "running"@ {
            Some(Status::Running)
        } else if name == "paused"@ {
            Some(Status::Paused)
        } else if name == "stopped"@ {
            Some(Status::Stopped)
        } else {
            None
        }
    }

    /// The name under which the status is kept and reported.
    pub fn name(self) -> (name: &'static str)
        ensures
            name@ == self.name_of(),
    {
        match self {
            Status::Creating => "creating",
            Status::Created => "created",
            Status::Running => "running",
            Status::Paused => "paused",
            Status::Stopped => "stopped",
        }
    }

    /// Reads a status back from its name. Any other text is no status.
    pub fn from_name(name: &str) -> (status: Option<Status>)
        ensures
            status == Status::named(name@),
    {
        let name: String = name.to_owned();
        if name == "creating".to_owned() {
            Some(Status::Creating)
        } else if name == "created".to_owned() {
            Some(Status::Created)
        } else if name == "running".to_owned() {
            Some(Status::Running)
        } else if name == "paused".to_owned() {
            Some(Status::Paused)
        } else if name == "stopped".to_owned() {
            Some(Status::Stopped)
        } else {
            None
        }
    }

    /// Whether a record in this status may be deleted.
    pub fn can_delete(self, force: bool) -> (allowed: bool)
        ensures
            allowed == self.deletable(force),
    {
        match self {
            Status::Stopped => true,
            _ => force,
        }
    }
}

/// No operation moves a container backwards: the status it leads to lies at
/// least as far along the lifecycle, and is neither `Creating` nor `Created`.
pub proof fn law_moves_are_monotonic(status: Status, operation: Operation)
    requires
        status.after(operation).is_some(),
    ensures
        status.after(operation).unwrap().phase() >= status.phase(),
        status.after(operation).unwrap() != Status::Creating,
        status.after(operation).unwrap() != Status::Created,
{
}

/// A stopped container stays stopped, and a container that is still being
/// created accepts no operation.
pub proof fn law_ends_of_the_lifecycle(operation: Operation)
    ensures
        Status::Stopped.after(operation).is_none(),
        Status::Creating.after(operation).is_none(),
{
}

/// A status is read back from its own name, and from no other text.
pub proof fn law_names_tell_statuses_apart(status: Status, name: Seq<char>)
    ensures
        Status::named(status.name_of()) == Some(status),
        Status::named(name) == Some(status) <==> name == status.name_of(),
{
    reveal_strlit("creating");
    reveal_strlit("created");
    reveal_strlit("running");
    reveal_strlit("paused");
    reveal_strlit("stopped");
    assert("creating"@.len() == 8);
    assert("paused"@.len() == 6);
    assert("created"@[0] == 'c');
    assert("running"@[0] == 'r');
    assert("stopped"@[0] == 's');
}

} // verus!
