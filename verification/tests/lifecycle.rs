use youki::container::ContainerRecord;
use youki::dispatcher::{dispatch, Command, Reply};
use youki::error::{Cause, Error};
use youki::lifecycle::{Operation, Status};
use youki::message::Message;
use youki::process::main_process::{Event, MainProcess};
use youki::store::{Launch, StateStore};

const STATUSES: [Status; 5] =
    [Status::Creating, Status::Created, Status::Running, Status::Paused, Status::Stopped];

const OPERATIONS: [Operation; 5] =
    [Operation::Start, Operation::Pause, Operation::Resume, Operation::Kill, Operation::Exit];

fn completed(pid: i32, created: u64) -> Option<Launch> {
    let mut handshake = MainProcess::new(false);
    handshake.step(Event::Received(Message::ChildReady));
    Some(Launch { handshake, pid, created })
}

fn failed(event: Event) -> Option<Launch> {
    let mut handshake = MainProcess::new(true);
    handshake.step(Event::Received(Message::ChildReady));
    handshake.step(event);
    Some(Launch { handshake, pid: 1, created: 1 })
}

fn record(id: &str, status: Status) -> ContainerRecord {
    ContainerRecord::new(String::from(id), status, 100, 1_700_000_000, String::from("/bundle"))
}

fn store_with(records: &[(&str, Status)]) -> StateStore {
    let mut store = StateStore::new();
    for (id, status) in records {
        store.restore(record(id, *status)).unwrap();
    }
    store
}

fn create(id: &str) -> Command {
    Command::Create { id: String::from(id), bundle: String::from("/bundle") }
}

fn state(id: &str) -> Command {
    Command::State { id: String::from(id) }
}

fn status_of(store: &StateStore, id: &str) -> Status {
    store.state(id).unwrap().status()
}

#[test]
fn the_moves_of_the_lifecycle() {
    for status in STATUSES {
        for operation in OPERATIONS {
            let expected = match (status, operation) {
                (Status::Created, Operation::Start) => Ok(Status::Running),
                (Status::Running, Operation::Pause) => Ok(Status::Paused),
                (Status::Paused, Operation::Resume) => Ok(Status::Running),
                (Status::Running, Operation::Kill) => Ok(Status::Stopped),
                (Status::Paused, Operation::Kill) => Ok(Status::Stopped),
                (Status::Running, Operation::Exit) => Ok(Status::Stopped),
                (Status::Paused, Operation::Exit) => Ok(Status::Stopped),
                _ => Err(Error::InvalidStateError),
            };
            assert_eq!(status.apply(operation), expected);
        }
    }
}

#[test]
fn no_move_leads_back() {
    let phase = |status: Status| match status {
        Status::Creating => 0,
        Status::Created => 1,
        Status::Running | Status::Paused => 2,
        Status::Stopped => 3,
    };
    for status in STATUSES {
        for operation in OPERATIONS {
            if let Ok(next) = status.apply(operation) {
                assert!(phase(next) >= phase(status));
                assert_ne!(next, Status::Creating);
                assert_ne!(next, Status::Created);
            }
        }
    }
}

#[test]
fn a_stopped_container_accepts_no_operation() {
    for operation in OPERATIONS {
        assert_eq!(Status::Stopped.apply(operation), Err(Error::InvalidStateError));
        assert_eq!(Status::Creating.apply(operation), Err(Error::InvalidStateError));
    }
}

#[test]
fn only_a_stopped_container_is_deleted_without_force() {
    for status in STATUSES {
        assert_eq!(status.can_delete(false), status == Status::Stopped);
        assert!(status.can_delete(true));
    }
}

#[test]
fn a_record_gives_back_what_it_was_made_with() {
    let record =
        ContainerRecord::new(String::from("a"), Status::Paused, 77, 123, String::from("/b"));
    assert_eq!(record.id(), "a");
    assert_eq!(record.status(), Status::Paused);
    assert_eq!(record.pid(), 77);
    assert_eq!(record.created(), 123);
    assert_eq!(record.bundle(), "/b");
    assert_eq!(record.clone(), record);
    let stopped = record.with_status(Status::Stopped);
    assert_eq!(stopped, ContainerRecord::new(String::from("a"), Status::Stopped, 77, 123, String::from("/b")));
    assert_eq!(record.status(), Status::Paused);
}

#[test]
fn a_new_store_is_empty() {
    let store = StateStore::new();
    assert_eq!(store.len(), 0);
    assert!(store.list().is_empty());
    assert!(!store.contains("a"));
    assert_eq!(store.state("a"), Err(Error::NotFound));
}

#[test]
fn create_records_a_created_container() {
    let mut store = StateStore::new();
    let made = store.create("a", "/bundle/a", completed(41, 1000)).unwrap();
    assert_eq!(
        made,
        ContainerRecord::new(String::from("a"), Status::Created, 41, 1000, String::from("/bundle/a"))
    );
    assert_eq!(store.len(), 1);
    assert!(store.contains("a"));
    assert_eq!(store.state("a"), Ok(made));
}

#[test]
fn create_refuses_a_taken_identifier() {
    let mut store = store_with(&[("a", Status::Stopped)]);
    assert_eq!(store.create("a", "/other", completed(41, 1000)), Err(Error::InvalidStateError));
    assert_eq!(store.len(), 1);
    assert_eq!(store.state("a"), Ok(record("a", Status::Stopped)));
}

#[test]
fn create_without_a_launch_is_a_failed_bootstrap() {
    let mut store = StateStore::new();
    assert_eq!(store.create("a", "/b", None), Err(Error::BootstrapFailed(Cause::Resource)));
    assert_eq!(store.len(), 0);
}

#[test]
fn create_after_a_failed_handshake_keeps_the_cause() {
    for (event, cause) in [
        (Event::Closed, Cause::Io),
        (Event::TimedOut, Cause::TimedOut),
        (Event::Malformed, Cause::Protocol),
        (Event::Received(Message::MappingAck), Cause::Protocol),
    ] {
        let mut store = StateStore::new();
        assert_eq!(store.create("a", "/b", failed(event)), Err(Error::BootstrapFailed(cause)));
        assert_eq!(store.len(), 0);
        assert!(!store.contains("a"));
    }
}

#[test]
fn create_before_the_handshake_is_over_records_nothing() {
    let mut store = StateStore::new();
    let launch = Some(Launch { handshake: MainProcess::new(false), pid: 1, created: 1 });
    assert_eq!(store.create("a", "/b", launch), Err(Error::BootstrapFailed(Cause::Protocol)));
    let mut handshake = MainProcess::new(true);
    handshake.step(Event::Received(Message::ChildReady));
    handshake.step(Event::Received(Message::RequestIdentifierMapping));
    handshake.step(Event::MappingWritten);
    let launch = Some(Launch { handshake, pid: 1, created: 1 });
    assert_eq!(store.create("a", "/b", launch), Err(Error::BootstrapFailed(Cause::Protocol)));
    assert_eq!(store.len(), 0);
}

#[test]
fn a_taken_identifier_is_reported_before_a_failed_bootstrap() {
    let mut store = store_with(&[("a", Status::Running)]);
    assert_eq!(store.create("a", "/b", None), Err(Error::InvalidStateError));
    assert_eq!(store.create("a", "/b", failed(Event::Closed)), Err(Error::InvalidStateError));
}

#[test]
fn transition_moves_one_record() {
    let mut store = store_with(&[("a", Status::Created), ("b", Status::Created)]);
    let moved = store.transition("b", Operation::Start).unwrap();
    assert_eq!(moved, record("b", Status::Running));
    assert_eq!(store.state("b"), Ok(record("b", Status::Running)));
    assert_eq!(store.state("a"), Ok(record("a", Status::Created)));
    assert_eq!(store.len(), 2);
}

#[test]
fn transition_of_an_unknown_container_is_not_found() {
    let mut store = store_with(&[("a", Status::Created)]);
    assert_eq!(store.transition("b", Operation::Start), Err(Error::NotFound));
    assert_eq!(store.list(), vec![record("a", Status::Created)]);
}

#[test]
fn a_forbidden_transition_changes_nothing() {
    let mut store = store_with(&[("a", Status::Created)]);
    assert_eq!(store.transition("a", Operation::Pause), Err(Error::InvalidStateError));
    assert_eq!(store.transition("a", Operation::Resume), Err(Error::InvalidStateError));
    assert_eq!(store.transition("a", Operation::Kill), Err(Error::InvalidStateError));
    assert_eq!(store.state("a"), Ok(record("a", Status::Created)));
}

#[test]
fn an_exit_stops_a_running_or_paused_container() {
    let mut store = store_with(&[("a", Status::Running), ("b", Status::Paused)]);
    assert_eq!(store.transition("a", Operation::Exit), Ok(record("a", Status::Stopped)));
    assert_eq!(store.transition("b", Operation::Exit), Ok(record("b", Status::Stopped)));
    assert_eq!(store.transition("a", Operation::Exit), Err(Error::InvalidStateError));
}

#[test]
fn delete_removes_a_stopped_container() {
    let mut store = store_with(&[("a", Status::Stopped), ("b", Status::Running)]);
    assert_eq!(store.delete("a", false), Ok(record("a", Status::Stopped)));
    assert!(!store.contains("a"));
    assert_eq!(store.state("a"), Err(Error::NotFound));
    assert_eq!(store.list(), vec![record("b", Status::Running)]);
}

#[test]
fn delete_of_a_running_container_fails_and_keeps_the_record() {
    let mut store = store_with(&[("a", Status::Running)]);
    assert_eq!(store.delete("a", false), Err(Error::InvalidStateError));
    assert_eq!(store.state("a"), Ok(record("a", Status::Running)));
    assert_eq!(store.len(), 1);
}

#[test]
fn delete_without_force_needs_a_stopped_container() {
    for status in [Status::Created, Status::Running, Status::Paused] {
        let mut store = store_with(&[("a", status)]);
        assert_eq!(store.delete("a", false), Err(Error::InvalidStateError));
        assert_eq!(store.state("a"), Ok(record("a", status)));
    }
}

#[test]
fn delete_with_force_removes_any_container() {
    for status in [Status::Created, Status::Running, Status::Paused, Status::Stopped] {
        let mut store = store_with(&[("a", status)]);
        assert_eq!(store.delete("a", true), Ok(record("a", status)));
        assert_eq!(store.len(), 0);
    }
}

#[test]
fn delete_of_an_unknown_container_is_not_found() {
    let mut store = store_with(&[("a", Status::Stopped)]);
    assert_eq!(store.delete("b", false), Err(Error::NotFound));
    assert_eq!(store.delete("b", true), Err(Error::NotFound));
    assert_eq!(store.len(), 1);
}

#[test]
fn delete_from_the_middle_keeps_the_order() {
    let mut store =
        store_with(&[("a", Status::Stopped), ("b", Status::Stopped), ("c", Status::Running)]);
    store.delete("b", false).unwrap();
    assert_eq!(store.list(), vec![record("a", Status::Stopped), record("c", Status::Running)]);
}

#[test]
fn restore_refuses_a_record_that_is_creating() {
    let mut store = StateStore::new();
    assert_eq!(store.restore(record("a", Status::Creating)), Err(Error::InvalidStateError));
    assert_eq!(store.len(), 0);
}

#[test]
fn restore_refuses_a_second_record_of_an_identifier() {
    let mut store = store_with(&[("a", Status::Running)]);
    assert_eq!(store.restore(record("a", Status::Stopped)), Err(Error::InvalidStateError));
    assert_eq!(store.list(), vec![record("a", Status::Running)]);
}

#[test]
fn list_gives_the_records_in_the_order_of_creation() {
    let mut store = StateStore::new();
    store.create("b", "/bundle", completed(100, 1_700_000_000)).unwrap();
    store.create("a", "/bundle", completed(100, 1_700_000_000)).unwrap();
    store.create("c", "/bundle", completed(100, 1_700_000_000)).unwrap();
    assert_eq!(
        store.list(),
        vec![
            record("b", Status::Created),
            record("a", Status::Created),
            record("c", Status::Created)
        ]
    );
}

#[test]
fn identifiers_are_told_apart_exactly() {
    let store = store_with(&[("abc", Status::Running)]);
    assert!(store.contains("abc"));
    assert!(!store.contains("ab"));
    assert!(!store.contains("abcd"));
    assert!(!store.contains("ABC"));
    assert!(!store.contains(""));
}

#[test]
fn only_create_and_run_need_a_bootstrap() {
    assert!(create("a").needs_bootstrap());
    assert!(Command::Run { id: String::from("a"), bundle: String::from("/b") }.needs_bootstrap());
    let id = || String::from("a");
    for command in [
        Command::Start { id: id() },
        Command::Kill { id: id() },
        Command::Delete { id: id(), force: true },
        state("a"),
        Command::List,
        Command::Pause { id: id() },
        Command::Resume { id: id() },
        Command::Events { id: id() },
        Command::Exec { id: id() },
        Command::Ps { id: id() },
    ] {
        assert!(!command.needs_bootstrap());
    }
}

#[test]
fn a_successful_create_goes_from_absent_to_created() {
    let mut store = StateStore::new();
    assert_eq!(dispatch(&mut store, &state("a"), None), Err(Error::NotFound));
    let reply = dispatch(&mut store, &create("a"), completed(100, 1_700_000_000));
    assert_eq!(reply, Ok(Reply::Record(record("a", Status::Created))));
    assert_eq!(dispatch(&mut store, &state("a"), None), Ok(Reply::Record(record("a", Status::Created))));
    for kept in store.list() {
        assert_ne!(kept.status(), Status::Creating);
    }
}

#[test]
fn a_closed_channel_leaves_no_record() {
    let path = [
        Event::Received(Message::ChildReady),
        Event::Received(Message::RequestIdentifierMapping),
        Event::MappingWritten,
    ];
    for stop in 0..=path.len() {
        let mut handshake = MainProcess::new(true);
        for event in &path[..stop] {
            handshake.step(*event);
        }
        handshake.step(Event::Closed);
        handshake.step(Event::Sent);
        let launch = Some(Launch { handshake, pid: 9, created: 9 });
        let mut store = store_with(&[("other", Status::Running)]);
        assert_eq!(
            dispatch(&mut store, &create("a"), launch),
            Err(Error::BootstrapFailed(Cause::Io))
        );
        assert_eq!(
            dispatch(
                &mut store,
                &Command::Run { id: String::from("a"), bundle: String::from("/b") },
                launch
            ),
            Err(Error::BootstrapFailed(Cause::Io))
        );
        assert!(!store.contains("a"));
        assert_eq!(store.list(), vec![record("other", Status::Running)]);
    }
}

#[test]
fn run_creates_and_starts_at_once() {
    let mut store = StateStore::new();
    let run = Command::Run { id: String::from("a"), bundle: String::from("/bundle") };
    let reply = dispatch(&mut store, &run, completed(100, 1_700_000_000));
    assert_eq!(reply, Ok(Reply::Record(record("a", Status::Running))));
    assert_eq!(status_of(&store, "a"), Status::Running);
    assert_eq!(dispatch(&mut store, &run, completed(5, 5)), Err(Error::InvalidStateError));
    assert_eq!(store.len(), 1);
}

#[test]
fn state_twice_in_a_row_gives_the_same_answer() {
    let mut store = store_with(&[("a", Status::Paused), ("b", Status::Running)]);
    let first = dispatch(&mut store, &state("a"), None);
    let second = dispatch(&mut store, &state("a"), None);
    assert_eq!(first, Ok(Reply::Record(record("a", Status::Paused))));
    assert_eq!(first, second);
    let first = dispatch(&mut store, &state("missing"), None);
    let second = dispatch(&mut store, &state("missing"), None);
    assert_eq!(first, Err(Error::NotFound));
    assert_eq!(first, second);
    assert_eq!(store.list(), vec![record("a", Status::Paused), record("b", Status::Running)]);
}

#[test]
fn dispatched_delete_of_a_running_container_is_an_invalid_state() {
    let mut store = store_with(&[("a", Status::Running)]);
    let delete = Command::Delete { id: String::from("a"), force: false };
    assert_eq!(dispatch(&mut store, &delete, None), Err(Error::InvalidStateError));
    assert_eq!(dispatch(&mut store, &state("a"), None), Ok(Reply::Record(record("a", Status::Running))));
}

#[test]
fn dispatched_delete_of_a_stopped_container_removes_it() {
    let mut store = store_with(&[("a", Status::Stopped)]);
    let delete = Command::Delete { id: String::from("a"), force: false };
    assert_eq!(dispatch(&mut store, &delete, None), Ok(Reply::Removed(record("a", Status::Stopped))));
    assert_eq!(dispatch(&mut store, &state("a"), None), Err(Error::NotFound));
    assert_eq!(dispatch(&mut store, &delete, None), Err(Error::NotFound));
}

#[test]
fn dispatched_forced_delete_removes_a_running_container() {
    let mut store = store_with(&[("a", Status::Running)]);
    let delete = Command::Delete { id: String::from("a"), force: true };
    assert_eq!(dispatch(&mut store, &delete, None), Ok(Reply::Removed(record("a", Status::Running))));
    assert_eq!(store.len(), 0);
}

#[test]
fn queries_return_the_record_and_change_nothing() {
    let mut store = store_with(&[("a", Status::Running)]);
    let id = || String::from("a");
    for command in [
        state("a"),
        Command::Events { id: id() },
        Command::Exec { id: id() },
        Command::Ps { id: id() },
    ] {
        assert_eq!(dispatch(&mut store, &command, None), Ok(Reply::Record(record("a", Status::Running))));
    }
    let missing = || String::from("b");
    for command in [
        state("b"),
        Command::Events { id: missing() },
        Command::Exec { id: missing() },
        Command::Ps { id: missing() },
    ] {
        assert_eq!(dispatch(&mut store, &command, None), Err(Error::NotFound));
    }
    assert_eq!(store.list(), vec![record("a", Status::Running)]);
}

#[test]
fn list_returns_all_records() {
    let mut store = store_with(&[("a", Status::Running), ("b", Status::Stopped)]);
    assert_eq!(
        dispatch(&mut store, &Command::List, None),
        Ok(Reply::Listing(vec![record("a", Status::Running), record("b", Status::Stopped)]))
    );
    let mut empty = StateStore::new();
    assert_eq!(dispatch(&mut empty, &Command::List, None), Ok(Reply::Listing(vec![])));
}

#[test]
fn commands_on_an_unknown_container_are_not_found() {
    let mut store = StateStore::new();
    let id = || String::from("a");
    for command in [
        Command::Start { id: id() },
        Command::Kill { id: id() },
        Command::Pause { id: id() },
        Command::Resume { id: id() },
        Command::Delete { id: id(), force: false },
    ] {
        assert_eq!(dispatch(&mut store, &command, completed(1, 1)), Err(Error::NotFound));
    }
}

#[test]
fn a_launch_is_ignored_by_commands_that_bring_nothing_up() {
    let mut store = store_with(&[("a", Status::Created)]);
    let start = Command::Start { id: String::from("a") };
    assert_eq!(
        dispatch(&mut store, &start, failed(Event::Closed)),
        Ok(Reply::Record(record("a", Status::Running)))
    );
}

#[test]
fn the_whole_life_of_a_container() {
    let mut store = StateStore::new();
    let id = || String::from("A");

    let mut handshake = MainProcess::new(true);
    handshake.step(Event::Received(Message::ChildReady));
    handshake.step(Event::Received(Message::RequestIdentifierMapping));
    handshake.step(Event::MappingWritten);
    handshake.step(Event::Sent);
    assert!(handshake.is_completed());
    let launch = Some(Launch { handshake, pid: 100, created: 1_700_000_000 });

    let reply = dispatch(&mut store, &create("A"), launch);
    assert_eq!(reply, Ok(Reply::Record(record("A", Status::Created))));
    assert_eq!(status_of(&store, "A"), Status::Created);

    let reply = dispatch(&mut store, &Command::Start { id: id() }, None);
    assert_eq!(reply, Ok(Reply::Record(record("A", Status::Running))));

    let reply = dispatch(&mut store, &Command::Pause { id: id() }, None);
    assert_eq!(reply, Ok(Reply::Record(record("A", Status::Paused))));

    let reply = dispatch(&mut store, &Command::Resume { id: id() }, None);
    assert_eq!(reply, Ok(Reply::Record(record("A", Status::Running))));

    let reply = dispatch(&mut store, &Command::Kill { id: id() }, None);
    assert_eq!(reply, Ok(Reply::Record(record("A", Status::Stopped))));

    let reply = dispatch(&mut store, &Command::Delete { id: id(), force: false }, None);
    assert_eq!(reply, Ok(Reply::Removed(record("A", Status::Stopped))));

    assert_eq!(dispatch(&mut store, &state("A"), None), Err(Error::NotFound));
    assert_eq!(store.len(), 0);
}

#[test]
fn two_bootstraps_do_not_touch_each_other() {
    let mut store = StateStore::new();
    let mut first = MainProcess::new(true);
    let mut second = MainProcess::new(false);

    first.step(Event::Received(Message::ChildReady));
    assert!(!second.is_completed());
    second.step(Event::Received(Message::ChildReady));
    assert!(second.is_completed());
    assert!(!first.is_completed());
    first.step(Event::Received(Message::RequestIdentifierMapping));
    let b = dispatch(&mut store, &create("B"), Some(Launch { handshake: second, pid: 2, created: 20 }));
    first.step(Event::MappingWritten);
    first.step(Event::Sent);
    assert!(first.is_completed());
    let a = dispatch(&mut store, &create("A"), Some(Launch { handshake: first, pid: 1, created: 10 }));

    let made = |id: &str, pid: i32, created: u64| {
        ContainerRecord::new(String::from(id), Status::Created, pid, created, String::from("/bundle"))
    };
    assert_eq!(a, Ok(Reply::Record(made("A", 1, 10))));
    assert_eq!(b, Ok(Reply::Record(made("B", 2, 20))));
    assert_eq!(store.list(), vec![made("B", 2, 20), made("A", 1, 10)]);
}

#[test]
fn a_failed_bootstrap_does_not_touch_another() {
    let mut store = StateStore::new();
    let mut first = MainProcess::new(true);
    let mut second = MainProcess::new(true);
    first.step(Event::Received(Message::ChildReady));
    second.step(Event::Received(Message::ChildReady));
    first.step(Event::Closed);
    for event in
        [Event::Received(Message::RequestIdentifierMapping), Event::MappingWritten, Event::Sent]
    {
        second.step(event);
    }
    let a = dispatch(&mut store, &create("A"), Some(Launch { handshake: first, pid: 1, created: 10 }));
    let b = dispatch(&mut store, &create("B"), Some(Launch { handshake: second, pid: 2, created: 20 }));
    assert_eq!(a, Err(Error::BootstrapFailed(Cause::Io)));
    assert!(b.is_ok());
    assert!(!store.contains("A"));
    assert_eq!(status_of(&store, "B"), Status::Created);
}

#[test]
fn every_status_has_its_name() {
    assert_eq!(Status::Creating.name(), "creating");
    assert_eq!(Status::Created.name(), "created");
    assert_eq!(Status::Running.name(), "running");
    assert_eq!(Status::Paused.name(), "paused");
    assert_eq!(Status::Stopped.name(), "stopped");
}

#[test]
fn a_status_is_read_back_from_its_name() {
    for status in STATUSES {
        assert_eq!(Status::from_name(status.name()), Some(status));
    }
}

#[test]
fn other_text_is_no_status() {
    for text in ["", "Running", "running ", " running", "run", "stoppedd", "create", "dead"] {
        assert_eq!(Status::from_name(text), None);
    }
}
