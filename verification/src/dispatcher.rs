//! The lifecycle commands and what each does to the table of records.

use vstd::prelude::*;
use crate::container::{ContainerRecord, RecordView};
use crate::error::Error;
use crate::lifecycle::{Operation, Status};
use crate::process::main_process::{law_close_before_completion_leaves_no_record, Event, MainView};
use crate::store::{
    creation_fault, deletion_fault, holds, law_create_touches_one_record,
    law_delete_touches_one_record, law_move_touches_one_record, lemma_found, lookup, move_fault,
    well_formed, with_status, without, Launch, StateStore,
};

verus! {

/// A lifecycle command, as far as the table of records is concerned. What
/// else a command carries, such as the signal of a kill or the command line
/// of an exec, stays with the caller, who acts on the record that `dispatch`
/// returns.
#[derive(Debug, PartialEq, Eq)]
pub enum Command {
    /// Bring up a container from a bundle.
    Create { id: String, bundle: String },
    /// Start the payload of a created container.
    Start { id: String },
    /// Bring up a container and start its payload at once.
    Run { id: String, bundle: String },
    /// Signal the payload so that it stops.
    Kill { id: String },
    /// Remove the record of a container.
    Delete { id: String, force: bool },
    /// Report the record of a container.
    State { id: String },
    /// Report all records.
    List,
    /// Freeze the payload.
    Pause { id: String },
    /// Thaw the payload.
    Resume { id: String },
    /// Report the resource events of a container.
    Events { id: String },
    /// Run another process in a container.
    Exec { id: String },
    /// Report the processes of a container.
    Ps { id: String },
}

/// What a command is, as a plain value.
pub enum CommandView {
    Create { id: Seq<char>, bundle: Seq<char> },
    Start { id: Seq<char> },
    Run { id: Seq<char>, bundle: Seq<char> },
    Kill { id: Seq<char> },
    Delete { id: Seq<char>, force: bool },
    State { id: Seq<char> },
    List,
    Pause { id: Seq<char> },
    Resume { id: Seq<char> },
    Events { id: Seq<char> },
    Exec { id: Seq<char> },
    Ps { id: Seq<char> },
}

impl View for Command {
    type V = CommandView;

    open spec fn view(&self) -> CommandView {
        match self {
            Command::Create { id, bundle } => CommandView::Create { id: id@, bundle: bundle@ },
            Command::Start { id } => CommandView::Start { id: id@ },
            Command::Run { id, bundle } => CommandView::Run { id: id@, bundle: bundle@ },
            Command::Kill { id } => CommandView::Kill { id: id@ },
            Command::Delete { id, force } => CommandView::Delete { id: id@, force: *force },
            Command::State { id } => CommandView::State { id: id@ },
            Command::List => CommandView::List,
            Command::Pause { id } => CommandView::Pause { id: id@ },
            Command::Resume { id } => CommandView::Resume { id: id@ },
            Command::Events { id } => CommandView::Events { id: id@ },
            Command::Exec { id } => CommandView::Exec { id: id@ },
            Command::Ps { id } => CommandView::Ps { id: id@ },
        }
    }
}

/// What a command answers with.
#[derive(Debug, PartialEq, Eq)]
pub enum Reply {
    /// The record of the container as the command left it.
    Record(ContainerRecord),
    /// The record that the command removed.
    Removed(ContainerRecord),
    /// All records, in the order of their creation.
    Listing(Vec<ContainerRecord>),
}

/// What a reply is, as a plain value.
pub enum ReplyView {
    Record(RecordView),
    Removed(RecordView),
    Listing(Seq<RecordView>),
}

/// The records of a listing, as plain values.
pub open spec fn listed(listing: Seq<ContainerRecord>) -> Seq<RecordView> {
    Seq::new(listing.len(), |i: int| listing[i]@)
}

impl View for Reply {
    type V = ReplyView;

    open spec fn view(&self) -> ReplyView {
        match self {
            Reply::Record(record) => ReplyView::Record(record@),
            Reply::Removed(record) => ReplyView::Removed(record@),
            Reply::Listing(listing) => ReplyView::Listing(listed(listing@)),
        }
    }
}

/// The answer of `dispatch`, as a plain value.
pub open spec fn answer(reply: Result<Reply, Error>) -> Result<ReplyView, Error> {
    match reply {
        Ok(r) => Ok(r@),
        Err(e) => Err(e),
    }
}

impl CommandView {
    /// Whether the command brings up a container, so that a bootstrap has to
    /// run before it is dispatched.
    pub open spec fn bootstraps(self) -> bool {
        self is Create || self is Run
    }
}

/// The table after a bootstrap was recorded under `id`, and the answer.
/// `status` is the status in which the record is made.
pub open spec fn created(
    records: Seq<RecordView>,
    id: Seq<char>,
    bundle: Seq<char>,
    launch: Option<Launch>,
    status: Status,
) -> (Seq<RecordView>, Result<ReplyView, Error>) {
    match creation_fault(records, id, launch) {
        Some(e) => (records, Err(e)),
        None => {
            let record = RecordView {
                id,
                status,
                pid: launch.unwrap().pid as int,
                created: launch.unwrap().created as int,
                bundle,
            };
            (records.push(record), Ok(ReplyView::Record(record)))
        },
    }
}

/// The table after `operation` was applied to `id`, and the answer.
pub open spec fn moved(records: Seq<RecordView>, id: Seq<char>, operation: Operation) -> (
    Seq<RecordView>,
    Result<ReplyView, Error>,
) {
    match move_fault(records, id, operation) {
        Some(e) => (records, Err(e)),
        None => {
            let before = lookup(records, id).unwrap();
            let status = before.status.after(operation).unwrap();
            (
                with_status(records, id, status),
                Ok(ReplyView::Record(RecordView { status, ..before })),
            )
        },
    }
}

/// The table after `id` was deleted, and the answer.
pub open spec fn deleted(records: Seq<RecordView>, id: Seq<char>, force: bool) -> (
    Seq<RecordView>,
    Result<ReplyView, Error>,
) {
    match deletion_fault(records, id, force) {
        Some(e) => (records, Err(e)),
        None => (without(records, id), Ok(ReplyView::Removed(lookup(records, id).unwrap()))),
    }
}

/// The table after a query for `id`, which is the table before it, and the
/// answer.
pub open spec fn queried(records: Seq<RecordView>, id: Seq<char>) -> (
    Seq<RecordView>,
    Result<ReplyView, Error>,
) {
    match lookup(records, id) {
        Some(record) => (records, Ok(ReplyView::Record(record))),
        None => (records, Err(Error::NotFound)),
    }
}

/// What a command does: the table after it, and its answer. `launch` is the
/// bootstrap that ran for a `Create` or a `Run`; no other command looks at it.
pub open spec fn outcome(records: Seq<RecordView>, command: CommandView, launch: Option<Launch>)
    -> (Seq<RecordView>, Result<ReplyView, Error>) {
    match command {
        CommandView::Create { id, bundle } => created(
            records,
            id,
            bundle,
            launch,
            Status::Created,
        ),
        CommandView::Run { id, bundle } => created(records, id, bundle, launch, Status::Running),
        CommandView::Start { id } => moved(records, id, Operation::Start),
        CommandView::Kill { id } => moved(records, id, Operation::Kill),
        CommandView::Pause { id } => moved(records, id, Operation::Pause),
        CommandView::Resume { id } => moved(records, id, Operation::Resume),
        CommandView::Delete { id, force } => deleted(records, id, force),
        CommandView::State { id } => queried(records, id),
        CommandView::Events { id } => queried(records, id),
        CommandView::Exec { id } => queried(records, id),
        CommandView::Ps { id } => queried(records, id),
        CommandView::List => (records, Ok(ReplyView::Listing(records))),
    }
}

impl Command {
    /// Whether a bootstrap has to run before the command is dispatched.
    pub fn needs_bootstrap(&self) -> (needed: bool)
        ensures
            needed == self@.bootstraps(),
    {
        match self {
            Command::Create { .. } => true,
            Command::Run { .. } => true,
            _ => false,
        }
    }
}

/// Applies `operation` to the record of `id`.
fn apply(store: &mut StateStore, id: &String, operation: Operation) -> (reply: Result<Reply, Error>)
    ensures
        well_formed(final(store)@),
        (final(store)@, answer(reply)) == moved(old(store)@, id@, operation),
{
    match store.transition(id.as_str(), operation) {
        Ok(record) => Ok(Reply::Record(record)),
        Err(e) => Err(e),
    }
}

/// Looks up the record of `id`.
fn query(store: &StateStore, id: &String) -> (reply: Result<Reply, Error>)
    ensures
        well_formed(store@),
        answer(reply) == queried(store@, id@).1,
{
    match store.state(id.as_str()) {
        Ok(record) => Ok(Reply::Record(record)),
        Err(e) => Err(e),
    }
}

/// Carries out one lifecycle command on the table of records.
///
/// `launch` is the bootstrap that the caller ran for a `Create` or a `Run`,
/// or `None` where it could not bring up any process; no other command looks
/// at it.
///
/// - `Create` records the container as `Created`, and `Run` as `Running`, if
///   the identifier is free and the bootstrap is complete.
/// - `Start`, `Pause`, `Resume` and `Kill` move the record along the
///   lifecycle and return it as it then stands.
/// - `Delete` removes the record of a stopped container, or with `force` of
///   any container, and returns it.
/// - `State`, `Events`, `Exec` and `Ps` return the record and change nothing.
/// - `List` returns all records and changes nothing.
///
/// A command that names no existing record fails with `NotFound`, one that
/// the record's status forbids with `InvalidStateError`, and one whose
/// bootstrap did not complete with `BootstrapFailed`. A command that fails
/// leaves the table as it was.
pub fn dispatch(store: &mut StateStore, command: &Command, launch: Option<Launch>) -> (reply:
    Result<Reply, Error>)
    ensures
        well_formed(final(store)@),
        (final(store)@, answer(reply)) == outcome(old(store)@, command@, launch),
{
    let ghost before = store@;
    match command {
        Command::Create { id, bundle } => {
            match store.create(id.as_str(), bundle.as_str(), launch) {
                Ok(record) => Ok(Reply::Record(record)),
                Err(e) => Err(e),
            }
        },
        Command::Run { id, bundle } => {
            match store.create(id.as_str(), bundle.as_str(), launch) {
                Ok(made) => {
                    proof {
                        lemma_found(store@, id@, before.len() as int);
                    }
                    match store.transition(id.as_str(), Operation::Start) {
                        Ok(record) => {
                            assert(store@ =~= before.push(record@));
                            Ok(Reply::Record(record))
                        },
                        Err(e) => Err(e),
                    }
                },
                Err(e) => Err(e),
            }
        },
        Command::Start { id } => apply(store, id, Operation::Start),
        Command::Kill { id } => apply(store, id, Operation::Kill),
        Command::Pause { id } => apply(store, id, Operation::Pause),
        Command::Resume { id } => apply(store, id, Operation::Resume),
        Command::Delete { id, force } => {
            match store.delete(id.as_str(), *force) {
                Ok(record) => Ok(Reply::Removed(record)),
                Err(e) => Err(e),
            }
        },
        Command::State { id } => query(store, id),
        Command::Events { id } => query(store, id),
        Command::Exec { id } => query(store, id),
        Command::Ps { id } => query(store, id),
        Command::List => {
            let listing = store.list();
            assert(listed(listing@) =~= store@);
            Ok(Reply::Listing(listing))
        },
    }
}

/// Whatever a command does, the table stays well formed: identifiers stay
/// unique and no record is `Creating`.
pub proof fn law_commands_keep_the_table_well_formed(
    records: Seq<RecordView>,
    command: CommandView,
    launch: Option<Launch>,
)
    requires
        well_formed(records),
    ensures
        well_formed(outcome(records, command, launch).0),
{
    let (next, reply) = outcome(records, command, launch);
    if reply.is_ok() {
        match command {
            CommandView::Create { id, bundle } => {
                law_create_touches_one_record(records, next.last());
            },
            CommandView::Run { id, bundle } => {
                law_create_touches_one_record(records, next.last());
            },
            CommandView::Start { id } => {
                law_move_touches_one_record(records, id, Status::Running);
            },
            CommandView::Resume { id } => {
                law_move_touches_one_record(records, id, Status::Running);
            },
            CommandView::Pause { id } => {
                law_move_touches_one_record(records, id, Status::Paused);
            },
            CommandView::Kill { id } => {
                law_move_touches_one_record(records, id, Status::Stopped);
            },
            CommandView::Delete { id, force } => {
                law_delete_touches_one_record(records, id);
            },
            _ => {},
        }
    }
}

/// A command that fails changes nothing.
pub proof fn law_failure_changes_nothing(
    records: Seq<RecordView>,
    command: CommandView,
    launch: Option<Launch>,
)
    ensures
        outcome(records, command, launch).1.is_err() ==> outcome(records, command, launch).0
            == records,
{
}

/// A successful create takes the record from absent straight to `Created`:
/// before it the identifier has no record, after it the record is there in
/// the status `Created`, and it is at no time `Creating`. A create whose
/// bootstrap did not complete fails and leaves no record.
pub proof fn law_create_goes_from_absent_to_created(
    records: Seq<RecordView>,
    id: Seq<char>,
    bundle: Seq<char>,
    launch: Option<Launch>,
)
    requires
        well_formed(records),
    ensures
        ({
            let (next, reply) = outcome(records, CommandView::Create { id, bundle }, launch);
            &&& reply.is_ok() <==> creation_fault(records, id, launch).is_none()
            &&& reply.is_ok() ==> {
                &&& lookup(records, id).is_none()
                &&& lookup(next, id) matches Some(record)
                &&& record.status == Status::Created
            }
            &&& reply.is_err() ==> next == records
            &&& forall|other: Seq<char>| #[trigger]
                lookup(next, other) matches Some(record) ==> record.status != Status::Creating
        }),
{
    let (next, reply) = outcome(records, CommandView::Create { id, bundle }, launch);
    law_commands_keep_the_table_well_formed(records, CommandView::Create { id, bundle }, launch);
    if reply.is_ok() {
        law_create_touches_one_record(records, next.last());
    }
}

/// Asking for the state of a container twice in a row gives the same answer
/// twice, and leaves the table as it was.
pub proof fn law_state_is_idempotent(
    records: Seq<RecordView>,
    id: Seq<char>,
    first: Option<Launch>,
    second: Option<Launch>,
)
    ensures
        ({
            let (after_first, first_answer) = outcome(records, CommandView::State { id }, first);
            let (after_second, second_answer) = outcome(
                after_first,
                CommandView::State { id },
                second,
            );
            &&& after_first == records
            &&& after_second == records
            &&& second_answer == first_answer
        }),
{
}

/// Deleting without force is legal for a stopped container only. For a
/// container in any other status, a running one included, it fails with
/// `InvalidStateError` and leaves the table, and with it the record, as it
/// was. For a stopped one it removes the record, so that the identifier has
/// none afterwards.
pub proof fn law_delete_needs_a_stopped_container(
    records: Seq<RecordView>,
    id: Seq<char>,
    launch: Option<Launch>,
)
    requires
        well_formed(records),
        holds(records, id),
    ensures
        ({
            let record = lookup(records, id).unwrap();
            let (next, reply) = outcome(
                records,
                CommandView::Delete { id, force: false },
                launch,
            );
            &&& record.status != Status::Stopped ==> reply == Err::<ReplyView, Error>(
                Error::InvalidStateError,
            ) && next == records
            &&& record.status == Status::Stopped ==> reply == Ok::<ReplyView, Error>(
                ReplyView::Removed(record),
            ) && lookup(next, id).is_none()
        }),
{
    law_delete_touches_one_record(records, id);
}

/// Where a process closed its channel before the handshake was complete, a
/// `Create` or a `Run` for that bootstrap makes no record: it fails, and the
/// table is as it was.
pub proof fn law_closed_channel_leaves_no_record(
    records: Seq<RecordView>,
    command: CommandView,
    launch: Launch,
    remapped: bool,
    events: Seq<Event>,
    j: int,
)
    requires
        command.bootstraps(),
        launch.handshake@ == MainView::start(remapped).run(events),
        0 <= j < events.len(),
        events[j] == Event::Closed,
        !(MainView::start(remapped).run(events.take(j)).stage is Completed),
    ensures
        outcome(records, command, Some(launch)).0 == records,
        outcome(records, command, Some(launch)).1 matches Err(e) && (e is BootstrapFailed || e
            == Error::InvalidStateError),
{
    law_close_before_completion_leaves_no_record(remapped, events, j);
}

} // verus!
