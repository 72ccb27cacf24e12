//! The main process of a bootstrap: the handshake as the invoked runtime sees
//! it.
//!
//! The main process waits for `ChildReady`. Where the container remaps user
//! and group identifiers it then waits for `RequestIdentifierMapping`, has the
//! mapping written, and sends `MappingAck`. After that it has the container
//! recorded as created. Anything else that happens on the way fails the
//! bootstrap for good.
//!
//! `step` takes what happened and returns what to do next; the caller does it
//! and reports back.

use vstd::prelude::*;
use crate::channel::Readiness;
use crate::error::{Cause, Error};
use crate::lifecycle::Status;
use crate::message::Message;

verus! {

/// How far the main process has come.
#[derive(Clone, Copy, Debug, PartialEq, Eq, Structural)]
pub enum MainStage {
    /// Waiting for `ChildReady`.
    AwaitingChild,
    /// Waiting for `RequestIdentifierMapping`.
    AwaitingRequest,
    /// The identifier mapping is being written.
    WritingMapping,
    /// `MappingAck` is being sent.
    Acknowledging,
    /// The handshake is complete.
    Completed,
    /// The handshake failed.
    Failed(Cause),
}

/// Something that happened to the main process during the handshake.
#[derive(Clone, Copy, Debug, PartialEq, Eq, Structural)]
pub enum Event {
    /// A message arrived.
    Received(Message),
    /// Bytes arrived that are no message.
    Malformed,
    /// The peer closed its endpoint.
    Closed,
    /// A bounded wait elapsed with nothing to read.
    TimedOut,
    /// The identifier mapping is durably written.
    MappingWritten,
    /// The identifier mapping could not be written.
    MappingFailed,
    /// The frame handed out last is written to the pipe.
    Sent,
    /// Writing it met a closed or broken pipe.
    SendFailed,
}

/// What the main process has to do next.
#[derive(Clone, Copy, Debug, PartialEq, Eq, Structural)]
pub enum Action {
    /// Wait, within a bound, for the next message.
    Receive,
    /// Write the identifier mapping of the init process.
    WriteMapping,
    /// Send the message.
    Send(Message),
    /// Record the container as created.
    Persist,
    /// Reap the duplicated processes and report `BootstrapFailed`.
    Abort(Cause),
    /// Nothing: the handshake is over.
    Nothing,
}

/// What the main process is, as a plain value.
pub struct MainView {
    /// How far the handshake has come.
    pub stage: MainStage,
    /// Whether the container remaps user and group identifiers.
    pub remapped: bool,
}

/// The main process of one bootstrap.
#[derive(Clone, Copy, Debug)]
pub struct MainProcess {
    stage: MainStage,
    remapped: bool,
}

impl View for MainProcess {
    type V = MainView;

    closed spec fn view(&self) -> MainView {
        MainView { stage: self.stage, remapped: self.remapped }
    }
}

impl MainStage {
    /// Whether the handshake is over, for better or worse.
    pub open spec fn is_over(self) -> bool {
        self is Completed || self is Failed
    }

    /// The status of the container at this stage: `Creating` while the
    /// handshake is under way, `Created` once it is complete, and none at all
    /// after it failed.
    pub open spec fn status(self) -> Option<Status> {
        match self {
            MainStage::Completed => Some(Status::Created),
            MainStage::Failed(_) => None,
            _ => Some(Status::Creating),
        }
    }
}

impl Event {
    /// Why the event fails a handshake that did not expect it: a closed pipe
    /// and a failed write are `Io`, a timeout is `TimedOut`, and everything
    /// else, being out of turn, is `Protocol`.
    pub open spec fn cause(self) -> Cause {
        match self {
            Event::Closed => Cause::Io,
            Event::MappingFailed => Cause::Io,
            Event::SendFailed => Cause::Io,
            Event::TimedOut => Cause::TimedOut,
            _ => Cause::Protocol,
        }
    }

    /// The event that a bounded wait and the read after it amount to.
    pub open spec fn of_reception(readiness: Readiness, received: Result<Message, Error>) -> Event {
        match readiness {
            Readiness::TimedOut => Event::TimedOut,
            Readiness::Ready => match received {
                Ok(message) => Event::Received(message),
                Err(Error::ProtocolError) => Event::Malformed,
                Err(_) => Event::Closed,
            },
        }
    }

    /// Turns what a bounded wait reported, and what `receive` made of the
    /// bytes read after it, into an event. After a timeout nothing was read,
    /// and `received` is not looked at.
    pub fn from_reception(readiness: Readiness, received: Result<Message, Error>) -> (event: Event)
        ensures
            event == Event::of_reception(readiness, received),
    {
        match readiness {
            Readiness::TimedOut => Event::TimedOut,
            Readiness::Ready => match received {
                Ok(message) => Event::Received(message),
                Err(Error::ProtocolError) => Event::Malformed,
                Err(_) => Event::Closed,
            },
        }
    }

    fn fault(&self) -> (cause: Cause)
        ensures
            cause == self.cause(),
    {
        match self {
            Event::Closed => Cause::Io,
            Event::MappingFailed => Cause::Io,
            Event::SendFailed => Cause::Io,
            Event::TimedOut => Cause::TimedOut,
            _ => Cause::Protocol,
        }
    }
}

impl MainView {
    /// The main process at the start of a bootstrap.
    pub open spec fn start(remapped: bool) -> MainView {
        MainView { stage: MainStage::AwaitingChild, remapped }
    }

    /// The stage that `event` leads to, where it is the one that the stage
    /// waits for.
    pub open spec fn expected(self, event: Event) -> Option<(MainStage, Action)> {
        match (self.stage, event) {
            (MainStage::AwaitingChild, Event::Received(Message::ChildReady)) => Some(
                if self.remapped {
                    (MainStage::AwaitingRequest, Action::Receive)
                } else {
                    (MainStage::Completed, Action::Persist)
                },
            ),
            (
                MainStage::AwaitingRequest,
                Event::Received(Message::RequestIdentifierMapping),
            ) => Some((MainStage::WritingMapping, Action::WriteMapping)),
            (MainStage::WritingMapping, Event::MappingWritten) => Some(
                (MainStage::Acknowledging, Action::Send(Message::MappingAck)),
            ),
            (MainStage::Acknowledging, Event::Sent) => Some(
                (MainStage::Completed, Action::Persist),
            ),
            _ => None,
        }
    }

    /// One step of the handshake: the main process after `event`, and what it
    /// has to do. Once the handshake is over nothing moves it. Before that,
    /// the expected event advances it, and any other fails it.
    pub open spec fn step(self, event: Event) -> (MainView, Action) {
        if self.stage.is_over() {
            (self, Action::Nothing)
        } else {
            match self.expected(event) {
                Some((stage, action)) => (MainView { stage, ..self }, action),
                None => (
                    MainView { stage: MainStage::Failed(event.cause()), ..self },
                    Action::Abort(event.cause()),
                ),
            }
        }
    }

    /// The main process after all of `events`, in their order.
    pub open spec fn run(self, events: Seq<Event>) -> MainView
        decreases events.len(),
    {
        if events.len() == 0 {
            self
        } else {
            self.run(events.drop_last()).step(events.last()).0
        }
    }

    /// What the main process has to do after the event at `i`, having seen
    /// the events before it.
    pub open spec fn action_at(self, events: Seq<Event>, i: int) -> Action
        recommends
            0 <= i < events.len(),
    {
        self.run(events.take(i)).step(events[i]).1
    }
}

impl MainProcess {
    /// The main process at the start of a bootstrap, about to wait for
    /// `ChildReady`. `remapped` says whether the container remaps user and
    /// group identifiers, in which case the mapping is part of the handshake.
    pub fn new(remapped: bool) -> (main: Self)
        ensures
            main@ == MainView::start(remapped),
    {
        MainProcess { stage: MainStage::AwaitingChild, remapped }
    }

    /// How far the handshake has come.
    pub fn stage(&self) -> (stage: MainStage)
        ensures
            stage == self@.stage,
    {
        self.stage
    }

    /// Whether the container remaps user and group identifiers.
    pub fn is_remapped(&self) -> (remapped: bool)
        ensures
            remapped == self@.remapped,
    {
        self.remapped
    }

    /// Whether the handshake is complete, so that the container may be
    /// recorded.
    pub fn is_completed(&self) -> (completed: bool)
        ensures
            completed == (self@.stage is Completed),
    {
        match self.stage {
            MainStage::Completed => true,
            _ => false,
        }
    }

    /// The status of the container that the bootstrap is bringing up. While
    /// it is `Creating`, and after a failure, no record of it is kept.
    pub fn status(&self) -> (status: Option<Status>)
        ensures
            status == self@.stage.status(),
    {
        match self.stage {
            MainStage::Completed => Some(Status::Created),
            MainStage::Failed(_) => None,
            _ => Some(Status::Creating),
        }
    }

    /// The failure to report upward, once the handshake has failed.
    pub fn failure(&self) -> (failure: Option<Error>)
        ensures
            failure == match self@.stage {
                MainStage::Failed(cause) => Some(Error::BootstrapFailed(cause)),
                _ => None,
            },
    {
        match self.stage {
            MainStage::Failed(cause) => Some(Error::BootstrapFailed(cause)),
            _ => None,
        }
    }

    /// Takes one event and returns what to do next.
    pub fn step(&mut self, event: Event) -> (action: Action)
        ensures
            (final(self)@, action) == old(self)@.step(event),
    {
        let advance: Option<(MainStage, Action)> = match (self.stage, event) {
            (MainStage::Completed, _) => {
                return Action::Nothing;
            },
            (MainStage::Failed(_), _) => {
                return Action::Nothing;
            },
            (MainStage::AwaitingChild, Event::Received(Message::ChildReady)) => {
                if self.remapped {
                    Some((MainStage::AwaitingRequest, Action::Receive))
                } else {
                    Some((MainStage::Completed, Action::Persist))
                }
            },
            (MainStage::AwaitingRequest, Event::Received(Message::RequestIdentifierMapping)) => {
                Some((MainStage::WritingMapping, Action::WriteMapping))
            },
            (MainStage::WritingMapping, Event::MappingWritten) => {
                Some((MainStage::Acknowledging, Action::Send(Message::MappingAck)))
            },
            (MainStage::Acknowledging, Event::Sent) => {
                Some((MainStage::Completed, Action::Persist))
            },
            _ => None,
        };
        match advance {
            Some((stage, action)) => {
                self.stage = stage;
                action
            },
            None => {
                let cause = event.fault();
                self.stage = MainStage::Failed(cause);
                Action::Abort(cause)
            },
        }
    }
}

/// Whether `event` occurs among the first `n` of `events`.
pub open spec fn seen_before(events: Seq<Event>, event: Event, n: int) -> bool {
    exists|j: int| 0 <= j < n && j < events.len() && events[j] == event
}

/// Running one event more is one step more.
pub proof fn lemma_run_step(m: MainView, events: Seq<Event>, i: int)
    requires
        0 <= i < events.len(),
    ensures
        m.run(events.take(i + 1)) == m.run(events.take(i)).step(events[i]).0,
        m.run(events.take(i)).remapped == m.remapped,
        m.run(events.take(i + 1)).remapped == m.remapped,
    decreases i,
{
    let longer = events.take(i + 1);
    assert(longer.drop_last() =~= events.take(i));
    assert(longer.last() == events[i]);
    if i > 0 {
        lemma_run_step(m, events, i - 1);
    } else {
        assert(events.take(0).len() == 0);
    }
}

/// Once the handshake is over, nothing that happens later changes the main
/// process, and it asks for nothing more.
pub proof fn lemma_over_is_final(m: MainView, events: Seq<Event>, i: int, k: int)
    requires
        0 <= i <= k <= events.len(),
        m.run(events.take(i)).stage.is_over(),
    ensures
        m.run(events.take(k)) == m.run(events.take(i)),
        k < events.len() ==> m.action_at(events, k) == Action::Nothing,
    decreases k - i,
{
    if i < k {
        lemma_over_is_final(m, events, i, k - 1);
        lemma_run_step(m, events, k - 1);
    }
}

/// What the main process has seen by the time it stands at a stage: the
/// events that lead there, each before the next.
pub open spec fn history(m: MainView, events: Seq<Event>, n: int) -> bool {
    let ready = seen_before(events, Event::Received(Message::ChildReady), n);
    let asked = seen_before(events, Event::Received(Message::RequestIdentifierMapping), n);
    let written = seen_before(events, Event::MappingWritten, n);
    let sent = seen_before(events, Event::Sent, n);
    match m.stage {
        MainStage::AwaitingChild => true,
        MainStage::AwaitingRequest => m.remapped && ready,
        MainStage::WritingMapping => m.remapped && ready && asked,
        MainStage::Acknowledging => m.remapped && ready && asked && written,
        MainStage::Completed => ready && (m.remapped ==> asked && written && sent),
        MainStage::Failed(_) => true,
    }
}

/// Every stage that a bootstrap reaches has its history behind it.
pub proof fn lemma_history(remapped: bool, events: Seq<Event>, n: int)
    requires
        0 <= n <= events.len(),
    ensures
        history(MainView::start(remapped).run(events.take(n)), events, n),
    decreases n,
{
    let start = MainView::start(remapped);
    if n == 0 {
        assert(events.take(0).len() == 0);
    } else {
        lemma_history(remapped, events, n - 1);
        lemma_run_step(start, events, n - 1);
        let before = start.run(events.take(n - 1));
        let after = start.run(events.take(n));
        assert(after == before.step(events[n - 1]).0);
        assert(forall|e: Event| seen_before(events, e, n - 1) ==> seen_before(events, e, n));
        assert(forall|e: Event| events[n - 1] == e ==> seen_before(events, e, n));
    }
}

/// The main process acts on `RequestIdentifierMapping` only after it has
/// observed `ChildReady`: whenever it has the mapping written, the event at
/// hand is the request, and `ChildReady` arrived at an earlier one.
pub proof fn law_request_follows_child_ready(remapped: bool, events: Seq<Event>, i: int)
    requires
        0 <= i < events.len(),
        MainView::start(remapped).action_at(events, i) == Action::WriteMapping,
    ensures
        events[i] == Event::Received(Message::RequestIdentifierMapping),
        seen_before(events, Event::Received(Message::ChildReady), i),
{
    lemma_history(remapped, events, i);
}

/// `MappingAck` is never sent before the identifier mapping is durably
/// written: the main process sends nothing but `MappingAck`, and only in
/// answer to the event that says the mapping is written, after `ChildReady`
/// and the request for the mapping have arrived.
pub proof fn law_ack_follows_mapping(remapped: bool, events: Seq<Event>, i: int, message: Message)
    requires
        0 <= i < events.len(),
        MainView::start(remapped).action_at(events, i) == Action::Send(message),
    ensures
        message == Message::MappingAck,
        events[i] == Event::MappingWritten,
        seen_before(events, Event::Received(Message::ChildReady), i),
        seen_before(events, Event::Received(Message::RequestIdentifierMapping), i),
{
    lemma_history(remapped, events, i);
}

/// An event that the handshake does not wait for fails it for good. The main
/// process aborts with the cause of that event, the bootstrap ends as failed,
/// and at no point, before or after, is the container recorded.
pub proof fn law_unexpected_event_is_fatal(remapped: bool, events: Seq<Event>, j: int)
    requires
        0 <= j < events.len(),
        !MainView::start(remapped).run(events.take(j)).stage.is_over(),
        MainView::start(remapped).run(events.take(j)).expected(events[j]).is_none(),
    ensures
        MainView::start(remapped).action_at(events, j) == Action::Abort(events[j].cause()),
        MainView::start(remapped).run(events).stage == MainStage::Failed(events[j].cause()),
        forall|i: int|
            0 <= i < events.len() ==> #[trigger] MainView::start(remapped).action_at(events, i)
                != Action::Persist,
        forall|i: int|
            j < i < events.len() ==> #[trigger] MainView::start(remapped).action_at(events, i)
                == Action::Nothing,
{
    let start = MainView::start(remapped);
    lemma_run_step(start, events, j);
    assert(events.take(events.len() as int) =~= events);
    lemma_over_is_final(start, events, j + 1, events.len() as int);
    assert forall|i: int| 0 <= i < events.len() implies #[trigger] start.action_at(events, i)
        != Action::Persist by {
        if i < j {
            if start.action_at(events, i) == Action::Persist {
                lemma_run_step(start, events, i);
                lemma_over_is_final(start, events, i + 1, j);
            }
        } else if i > j {
            lemma_over_is_final(start, events, j + 1, i);
        }
    }
    assert forall|i: int| j < i < events.len() implies #[trigger] start.action_at(events, i)
        == Action::Nothing by {
        lemma_over_is_final(start, events, j + 1, i);
    }
}

/// Where a process closes its channel before the handshake is complete, no
/// container is recorded: the main process aborts, which reaps the
/// duplicated processes, and never asks for the record, whatever else
/// happens.
pub proof fn law_close_before_completion_leaves_no_record(
    remapped: bool,
    events: Seq<Event>,
    j: int,
)
    requires
        0 <= j < events.len(),
        events[j] == Event::Closed,
        !(MainView::start(remapped).run(events.take(j)).stage is Completed),
    ensures
        MainView::start(remapped).run(events).stage is Failed,
        exists|k: int|
            0 <= k <= j && #[trigger] MainView::start(remapped).action_at(events, k) is Abort,
        forall|i: int|
            0 <= i < events.len() ==> #[trigger] MainView::start(remapped).action_at(events, i)
                != Action::Persist,
    decreases j,
{
    let start = MainView::start(remapped);
    if start.run(events.take(j)).stage is Failed {
        // The handshake had failed already: at the first event that it did
        // not wait for.
        let k = first_failure(remapped, events, j);
        law_unexpected_event_is_fatal(remapped, events, k);
    } else {
        law_unexpected_event_is_fatal(remapped, events, j);
    }
}

/// The event at which a bootstrap that stands failed after `n` events did
/// fail.
proof fn first_failure(remapped: bool, events: Seq<Event>, n: int) -> (k: int)
    requires
        0 <= n <= events.len(),
        MainView::start(remapped).run(events.take(n)).stage is Failed,
    ensures
        0 <= k < n,
        !MainView::start(remapped).run(events.take(k)).stage.is_over(),
        MainView::start(remapped).run(events.take(k)).expected(events[k]).is_none(),
    decreases n,
{
    let start = MainView::start(remapped);
    if n == 0 {
        assert(events.take(0).len() == 0);
        0
    } else {
        lemma_run_step(start, events, n - 1);
        if start.run(events.take(n - 1)).stage is Failed {
            first_failure(remapped, events, n - 1)
        } else {
            n - 1
        }
    }
}

/// The main process asks for the record only when the handshake is complete,
/// and only once: the bootstrap then ends as completed, and at every other
/// event it asks for something else.
pub proof fn law_record_only_on_completion(remapped: bool, events: Seq<Event>, i: int)
    requires
        0 <= i < events.len(),
        MainView::start(remapped).action_at(events, i) == Action::Persist,
    ensures
        MainView::start(remapped).run(events).stage is Completed,
        forall|k: int|
            0 <= k < events.len() && k != i ==> #[trigger] MainView::start(remapped).action_at(
                events,
                k,
            ) != Action::Persist,
{
    let start = MainView::start(remapped);
    lemma_run_step(start, events, i);
    assert(events.take(events.len() as int) =~= events);
    lemma_over_is_final(start, events, i + 1, events.len() as int);
    assert forall|k: int| 0 <= k < events.len() && k != i implies #[trigger] start.action_at(
        events,
        k,
    ) != Action::Persist by {
        if k < i {
            if start.action_at(events, k) == Action::Persist {
                lemma_run_step(start, events, k);
                lemma_over_is_final(start, events, k + 1, i);
            }
        } else {
            lemma_over_is_final(start, events, i + 1, k);
        }
    }
}

/// A handshake in which every event is the one that the main process waits
/// for never fails.
pub proof fn law_expected_events_never_fail(remapped: bool, events: Seq<Event>, n: int)
    requires
        0 <= n <= events.len(),
        forall|i: int|
            0 <= i < n ==> {
                let before = #[trigger] MainView::start(remapped).run(events.take(i));
                before.stage.is_over() || before.expected(events[i]).is_some()
            },
    ensures
        !(MainView::start(remapped).run(events.take(n)).stage is Failed),
    decreases n,
{
    let start = MainView::start(remapped);
    if n == 0 {
        assert(events.take(0).len() == 0);
    } else {
        law_expected_events_never_fail(remapped, events, n - 1);
        lemma_run_step(start, events, n - 1);
        let before = start.run(events.take(n - 1));
        assert(before.stage.is_over() || before.expected(events[n - 1]).is_some());
    }
}

} // verus!
