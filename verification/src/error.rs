//! The failures that the runtime reports, and the exit code of each.

use vstd::prelude::*;

verus! {

/// Why a bootstrap was given up.
#[derive(Clone, Copy, Debug, PartialEq, Eq, Structural)]
pub enum Cause {
    /// A pipe or a readiness registration could not be allocated.
    Resource,
    /// A peer closed its endpoint, or a write met a closed or broken pipe.
    Io,
    /// A message arrived that was malformed or out of turn.
    Protocol,
    /// A bounded wait elapsed with nothing to read.
    TimedOut,
}

/// A failure of the runtime.
#[derive(Clone, Copy, Debug, PartialEq, Eq, Structural)]
pub enum Error {
    /// The operating system could not allocate a handle.
    ResourceError,
    /// A pipe operation met a closed or broken pipe.
    IoError,
    /// A handshake message was unknown or came out of turn.
    ProtocolError,
    /// A lifecycle command was issued in a status that forbids it.
    InvalidStateError,
    /// No container record has the identifier.
    NotFound,
    /// The handshake failed: no record exists and the process tree is reaped.
    BootstrapFailed(Cause),
}

/// The exit code of a successful invocation.
pub const EXIT_SUCCESS: i32 = 0;

impl Error {
    /// The exit code that stands for each failure.
    pub open spec fn exit_code_of(self) -> int {
        match self {
            Error::BootstrapFailed(_) => 2,
            Error::InvalidStateError => 3,
            Error::NotFound => 4,
            Error::ResourceError => 5,
            Error::IoError => 6,
            Error::ProtocolError => 7,
        }
    }

    /// The failure that a handshake reports when `self` occurs during it.
    pub open spec fn bootstrap_cause(self) -> Cause {
        match self {
            Error::ResourceError => Cause::Resource,
            Error::IoError => Cause::Io,
            Error::BootstrapFailed(cause) => cause,
            _ => Cause::Protocol,
        }
    }

    /// What the failure is, in words.
    pub open spec fn description(self) -> Seq<char> {
        match self {
            Error::ResourceError => "a handle could not be allocated"@,
            Error::IoError => "a pipe was closed or broken"@,
            Error::ProtocolError => "an unexpected or malformed handshake message"@,
            Error::InvalidStateError => "the container is in a status that forbids the command"@,
            Error::NotFound => "container not found"@,
            Error::BootstrapFailed(Cause::Resource) =>
                "bootstrap failed: a handle could not be allocated"@,
            Error::BootstrapFailed(Cause::Io) => "bootstrap failed: a pipe was closed or broken"@,
            Error::BootstrapFailed(Cause::Protocol) =>
                "bootstrap failed: an unexpected or malformed handshake message"@,
            Error::BootstrapFailed(Cause::TimedOut) => "bootstrap failed: a peer did not answer in time"@,
        }
    }

    /// The message to show for this failure.
    pub fn describe(&self) -> (text: &'static str)
        ensures
            text@ == self.description(),
    {
        match self {
            Error::ResourceError => "a handle could not be allocated",
            Error::IoError => "a pipe was closed or broken",
            Error::ProtocolError => "an unexpected or malformed handshake message",
            Error::InvalidStateError => "the container is in a status that forbids the command",
            Error::NotFound => "container not found",
            Error::BootstrapFailed(Cause::Resource) =>
                "bootstrap failed: a handle could not be allocated",
            Error::BootstrapFailed(Cause::Io) => "bootstrap failed: a pipe was closed or broken",
            Error::BootstrapFailed(Cause::Protocol) =>
                "bootstrap failed: an unexpected or malformed handshake message",
            Error::BootstrapFailed(Cause::TimedOut) => "bootstrap failed: a peer did not answer in time",
        }
    }

    /// The process exit code for this failure.
    pub fn exit_code(&self) -> (code: i32)
        ensures
            code == self.exit_code_of(),
    {
        match self {
            Error::BootstrapFailed(_) => 2,
            Error::InvalidStateError => 3,
            Error::NotFound => 4,
            Error::ResourceError => 5,
            Error::IoError => 6,
            Error::ProtocolError => 7,
        }
    }

    /// Wraps a failure met during a handshake into `BootstrapFailed`, keeping
    /// its cause. A lifecycle failure cannot come from a peer, so it counts as
    /// a breach of the protocol.
    pub fn during_bootstrap(self) -> (wrapped: Error)
        ensures
            wrapped == Error::BootstrapFailed(self.bootstrap_cause()),
    {
        match self {
            Error::ResourceError => Error::BootstrapFailed(Cause::Resource),
            Error::IoError => Error::BootstrapFailed(Cause::Io),
            Error::BootstrapFailed(cause) => Error::BootstrapFailed(cause),
            _ => Error::BootstrapFailed(Cause::Protocol),
        }
    }
}

/// The exit code of an invocation that ended with `outcome`.
pub open spec fn exit_status_of(outcome: Result<(), Error>) -> int {
    match outcome {
        Ok(_) => 0,
        Err(e) => e.exit_code_of(),
    }
}

/// The process exit code for the outcome of an invocation: zero on success,
/// the failure's own code otherwise.
pub fn exit_status(outcome: Result<(), Error>) -> (code: i32)
    ensures
        code == exit_status_of(outcome),
        code == EXIT_SUCCESS <==> outcome.is_ok(),
{
    match outcome {
        Ok(_) => EXIT_SUCCESS,
        Err(e) => e.exit_code(),
    }
}

/// A failure never exits with the code of success.
pub proof fn law_failure_exits_nonzero(e: Error)
    ensures
        e.exit_code_of() != EXIT_SUCCESS,
{
}

/// Failures of different kinds exit with different codes; the causes of a
/// failed bootstrap share one.
pub proof fn law_exit_codes_tell_kinds_apart(a: Error, b: Error)
    ensures
        a.exit_code_of() == b.exit_code_of() <==> (a == b || (a is BootstrapFailed
            && b is BootstrapFailed)),
{
}

} // verus!
