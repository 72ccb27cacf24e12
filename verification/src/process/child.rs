//! The child process of a bootstrap.
//!
//! The main process duplicates itself into the child. The child sets up a pipe
//! for the init process, keeps its reading end under a waiter, and then
//! speaks to the main process over its parent channel: it announces that Init
//! is alive, asks for the identifier mapping, and waits for the
//! acknowledgement.

use vstd::prelude::*;
use crate::channel::{
    create_pair, framed, fresh_endpoint, register, EndpointView, Readiness, ReceiveEndpoint,
    SendEndpoint, Waiter, WaiterView,
};
use crate::error::{Cause, Error};
use crate::message::Message;
use crate::process::parent::{ChildStage, ParentChannel, ParentChannelView};

verus! {

/// The readiness token under which the child watches the pipe of the init
/// process.
pub const CHILD: usize = 1;

/// What a child process is, as a plain value.
pub struct ChildProcessView {
    /// The channel to the main process.
    pub parent_channel: ParentChannelView,
    /// The reading end of the pipe for the init process, once it is set up.
    pub receiver: Option<EndpointView>,
    /// The registration of that reading end.
    pub poll: Option<WaiterView>,
}

/// Holds the channel to the main process, the reading end of the pipe for the
/// init process, and the registration of that end.
#[derive(Debug)]
pub struct ChildProcess {
    parent_channel: ParentChannel,
    receiver: Option<ReceiveEndpoint>,
    poll: Option<Waiter>,
}

impl View for ChildProcess {
    type V = ChildProcessView;

    closed spec fn view(&self) -> ChildProcessView {
        ChildProcessView {
            parent_channel: self.parent_channel@,
            receiver: match self.receiver {
                Some(r) => Some(r@),
                None => None,
            },
            poll: match self.poll {
                Some(w) => Some(w@),
                None => None,
            },
        }
    }
}

impl ChildProcessView {
    /// The reading end and its registration come and go together, and the
    /// registration watches that end under the token `CHILD`: no receive
    /// endpoint of the child has more than one waiter.
    pub open spec fn well_formed(self) -> bool {
        match (self.receiver, self.poll) {
            (Some(r), Some(w)) => r.watched && w.descriptor == r.descriptor && w.token == CHILD,
            (None, None) => true,
            _ => false,
        }
    }

    /// The child after the pipe with the reading descriptor `reading` was set
    /// up.
    pub open spec fn with_pipe(self, reading: int) -> ChildProcessView {
        ChildProcessView {
            parent_channel: self.parent_channel,
            receiver: Some(EndpointView { watched: true, ..fresh_endpoint(reading) }),
            poll: Some(WaiterView { descriptor: reading, token: CHILD as int }),
        }
    }

    /// The child with its parent channel replaced.
    pub open spec fn with_channel(self, parent_channel: ParentChannelView) -> ChildProcessView {
        ChildProcessView { parent_channel, ..self }
    }
}

impl ChildProcess {
    /// Creates the child around its channel to the main process. No pipe for
    /// the init process exists yet. This never fails.
    pub fn new(parent_channel: ParentChannel) -> (child: Result<Self, Error>)
        ensures
            child matches Ok(c) && c@ == (ChildProcessView {
                parent_channel: parent_channel@,
                receiver: None,
                poll: None,
            }) && c@.well_formed(),
    {
        Ok(Self { parent_channel, receiver: None, poll: None })
    }

    /// Sets up the pipe for the init process. `handles` are the descriptors
    /// that the operating system allocated for the writing and the reading
    /// end of a new pipe, or `None` if it allocated none; `granted` says
    /// whether it accepted the registration of the reading end under the
    /// token `CHILD`.
    ///
    /// With both in hand the child keeps the reading end and its waiter, in
    /// place of any earlier ones, and returns the writing end for the init
    /// process. Otherwise the handshake has failed for want of a resource,
    /// and the child is as it was.
    pub fn setup_pipe(&mut self, handles: Option<(i32, i32)>, granted: bool) -> (sender: Result<
        SendEndpoint,
        Error,
    >)
        ensures
            match sender {
                Ok(s) => {
                    &&& granted
                    &&& handles matches Some((writing, reading))
                    &&& s@ == fresh_endpoint(writing as int)
                    &&& final(self)@ == old(self)@.with_pipe(reading as int)
                    &&& final(self)@.well_formed()
                },
                Err(e) => {
                    &&& handles.is_none() || !granted
                    &&& e == Error::BootstrapFailed(Cause::Resource)
                    &&& final(self)@ == old(self)@
                },
            },
    {
        let (sender, mut receiver) = match create_pair(handles) {
            Ok(pair) => pair,
            Err(_) => {
                return Err(Error::BootstrapFailed(Cause::Resource));
            },
        };
        let waiter = match register(&mut receiver, CHILD, granted) {
            Ok(waiter) => waiter,
            Err(_) => {
                return Err(Error::BootstrapFailed(Cause::Resource));
            },
        };
        self.receiver = Some(receiver);
        self.poll = Some(waiter);
        Ok(sender)
    }

    /// The channel to the main process.
    pub fn parent_channel(&self) -> (channel: &ParentChannel)
        ensures
            channel@ == self@.parent_channel,
    {
        &self.parent_channel
    }

    /// The reading end of the pipe for the init process, once it is set up.
    pub fn receiver(&self) -> (receiver: Option<&ReceiveEndpoint>)
        ensures
            match receiver {
                Some(r) => self@.receiver == Some(r@),
                None => self@.receiver.is_none(),
            },
    {
        self.receiver.as_ref()
    }

    /// The registration of the reading end of the pipe for the init process,
    /// once it is set up.
    pub fn waiter(&self) -> (waiter: Option<&Waiter>)
        ensures
            match waiter {
                Some(w) => self@.poll == Some(w@),
                None => self@.poll.is_none(),
            },
    {
        self.poll.as_ref()
    }

    /// Tells the main process that the init process has been duplicated:
    /// hands out the frame of `ChildReady` to write on the parent channel.
    /// Out of turn, or on a closed end, the handshake fails instead.
    pub fn notify_parent(&mut self) -> (frame: Result<Vec<u8>, Error>)
        ensures
            framed(frame) == old(self)@.parent_channel.sending(
                ChildStage::Forked,
                Message::ChildReady,
            ),
            final(self)@ == old(self)@.with_channel(
                old(self)@.parent_channel.after_send(ChildStage::Forked, ChildStage::Announced),
            ),
    {
        self.parent_channel.send_child_ready()
    }

    /// Asks the main process to write the identifier mapping: hands out the
    /// frame of `RequestIdentifierMapping`. It may follow `notify_parent`
    /// only; out of turn, or on a closed end, the handshake fails instead.
    pub fn request_identifier_mapping(&mut self) -> (frame: Result<Vec<u8>, Error>)
        ensures
            framed(frame) == old(self)@.parent_channel.sending(
                ChildStage::Announced,
                Message::RequestIdentifierMapping,
            ),
            final(self)@ == old(self)@.with_channel(
                old(self)@.parent_channel.after_send(ChildStage::Announced, ChildStage::Requested),
            ),
    {
        self.parent_channel.request_identifier_mapping()
    }

    /// Takes what a bounded wait on the parent channel reported, and the
    /// bytes read if it was ready. Succeeds only if the mapping had been
    /// asked for and the bytes are `MappingAck`; then the child may go on
    /// with what depends on the mapping. A timeout, a closed pipe and any
    /// other bytes fail the handshake.
    pub fn wait_for_mapping_ack(&mut self, readiness: Readiness, bytes: &[u8]) -> (done: Result<
        (),
        Error,
    >)
        ensures
            done == old(self)@.parent_channel.acknowledging(readiness, bytes@),
            final(self)@ == old(self)@.with_channel(
                old(self)@.parent_channel.after_ack(readiness, bytes@),
            ),
    {
        self.parent_channel.wait_for_mapping_ack(readiness, bytes)
    }
}

/// What the child says to the main process leaves its pipe for the init
/// process alone: whatever becomes of the parent channel, the reading end and
/// its waiter stay as they are.
pub proof fn law_handshake_keeps_the_pipe(child: ChildProcessView, channel: ParentChannelView)
    ensures
        child.with_channel(channel).receiver == child.receiver,
        child.with_channel(channel).poll == child.poll,
        child.with_channel(channel).well_formed() == child.well_formed(),
{
}

} // verus!
