//! The child's channel to the main process, and its place in the handshake.

use vstd::prelude::*;
use crate::channel::{
    framed, reception, register, registrable, EndpointView, Readiness, ReceiveEndpoint,
    SendEndpoint, Waiter, WaiterView,
};
use crate::error::{Cause, Error};
use crate::message::Message;

verus! {

/// The readiness token under which the child watches the main process.
pub const PARENT: usize = 0;

/// How far the child has come in the handshake with the main process.
#[derive(Clone, Copy, Debug, PartialEq, Eq, Structural)]
pub enum ChildStage {
    /// Nothing has been sent yet.
    Forked,
    /// `ChildReady` has been handed out for sending.
    Announced,
    /// `RequestIdentifierMapping` has been handed out for sending.
    Requested,
    /// `MappingAck` has arrived.
    Acknowledged,
    /// The handshake failed; nothing more is sent or accepted.
    Failed,
}

/// What a parent channel is, as a plain value.
pub struct ParentChannelView {
    /// The end on which the child writes to the main process.
    pub sender: EndpointView,
    /// The end on which the child reads from the main process.
    pub receiver: EndpointView,
    /// The registration of the reading end.
    pub waiter: WaiterView,
    /// The child's place in the handshake.
    pub stage: ChildStage,
}

/// The child's two pipe ends towards the main process, the registration of the
/// reading one, and the child's place in the handshake.
#[derive(Debug)]
pub struct ParentChannel {
    sender: SendEndpoint,
    receiver: ReceiveEndpoint,
    waiter: Waiter,
    stage: ChildStage,
}

impl View for ParentChannel {
    type V = ParentChannelView;

    closed spec fn view(&self) -> ParentChannelView {
        ParentChannelView {
            sender: self.sender@,
            receiver: self.receiver@,
            waiter: self.waiter@,
            stage: self.stage,
        }
    }
}

impl ParentChannelView {
    /// The channel made of the two ends at the start of a handshake, with the
    /// reading end registered under the token `PARENT`.
    pub open spec fn start(sender: EndpointView, receiver: EndpointView) -> ParentChannelView {
        ParentChannelView {
            sender,
            receiver: EndpointView { watched: true, ..receiver },
            waiter: WaiterView { descriptor: receiver.descriptor, token: PARENT as int },
            stage: ChildStage::Forked,
        }
    }

    /// The channel at another stage.
    pub open spec fn at(self, stage: ChildStage) -> ParentChannelView {
        ParentChannelView { stage, ..self }
    }

    /// Why a send that is due at the stage `due` fails, if it does: out of
    /// turn it breaches the protocol, and on a closed end it is an `Io`
    /// failure.
    pub open spec fn send_fault(self, due: ChildStage) -> Option<Cause> {
        if self.stage != due {
            Some(Cause::Protocol)
        } else if !self.sender.open {
            Some(Cause::Io)
        } else {
            None
        }
    }

    /// What a send of `message` that is due at the stage `due` hands out: the
    /// frame, or the failure of the handshake.
    pub open spec fn sending(self, due: ChildStage, message: Message) -> Result<Seq<u8>, Error> {
        match self.send_fault(due) {
            None => Ok(message.encoding()),
            Some(cause) => Err(Error::BootstrapFailed(cause)),
        }
    }

    /// The channel after a send that is due at the stage `due`: at `next` if
    /// the send was in order, and failed otherwise.
    pub open spec fn after_send(self, due: ChildStage, next: ChildStage) -> ParentChannelView {
        if self.send_fault(due).is_none() {
            self.at(next)
        } else {
            self.at(ChildStage::Failed)
        }
    }

    /// What waiting for the acknowledgement ends with, given what the wait
    /// reported and the bytes that were read. It succeeds only if the mapping
    /// has been asked for, the wait found the end ready, and the bytes are
    /// `MappingAck`.
    pub open spec fn acknowledging(self, readiness: Readiness, bytes: Seq<u8>) -> Result<
        (),
        Error,
    > {
        if self.stage != ChildStage::Requested {
            Err(Error::BootstrapFailed(Cause::Protocol))
        } else if readiness == Readiness::TimedOut {
            Err(Error::BootstrapFailed(Cause::TimedOut))
        } else {
            match reception(self.receiver.open, bytes) {
                Ok(Message::MappingAck) => Ok(()),
                Ok(_) => Err(Error::BootstrapFailed(Cause::Protocol)),
                Err(e) => Err(Error::BootstrapFailed(e.bootstrap_cause())),
            }
        }
    }

    /// The channel after waiting for the acknowledgement.
    pub open spec fn after_ack(self, readiness: Readiness, bytes: Seq<u8>) -> ParentChannelView {
        if self.acknowledging(readiness, bytes).is_ok() {
            self.at(ChildStage::Acknowledged)
        } else {
            self.at(ChildStage::Failed)
        }
    }
}

impl ParentChannel {
    /// Joins the child's two pipe ends towards the main process into a
    /// channel, and records the registration of the reading end under the
    /// token `PARENT`. `granted` says whether the operating system accepted
    /// the registration.
    ///
    /// The channel exists if and only if the registration was granted and
    /// the reading end is open and not yet watched. Otherwise the handshake
    /// has failed for want of a resource.
    pub fn new(sender: SendEndpoint, receiver: ReceiveEndpoint, granted: bool) -> (channel: Result<
        Self,
        Error,
    >)
        ensures
            channel.is_ok() <==> granted && registrable(receiver@),
            match channel {
                Ok(c) => c@ == ParentChannelView::start(sender@, receiver@),
                Err(e) => e == Error::BootstrapFailed(Cause::Resource),
            },
    {
        let mut receiver = receiver;
        match register(&mut receiver, PARENT, granted) {
            Ok(waiter) => Ok(ParentChannel { sender, receiver, waiter, stage: ChildStage::Forked }),
            Err(_) => Err(Error::BootstrapFailed(Cause::Resource)),
        }
    }

    /// The child's place in the handshake.
    pub fn stage(&self) -> (stage: ChildStage)
        ensures
            stage == self@.stage,
    {
        self.stage
    }

    /// The registration of the reading end, with which to tell what a wait
    /// ended with.
    pub fn waiter(&self) -> (waiter: &Waiter)
        ensures
            waiter@ == self@.waiter,
    {
        &self.waiter
    }

    /// Moves from `due` to `next` and hands out the frame of `message`, or
    /// fails the handshake where the send is out of turn or the end closed.
    fn advance(&mut self, due: ChildStage, next: ChildStage, message: Message) -> (frame: Result<
        Vec<u8>,
        Error,
    >)
        ensures
            framed(frame) == old(self)@.sending(due, message),
            final(self)@ == old(self)@.after_send(due, next),
    {
        if self.stage != due {
            self.stage = ChildStage::Failed;
            return Err(Error::BootstrapFailed(Cause::Protocol));
        }
        match self.sender.send(message) {
            Ok(bytes) => {
                self.stage = next;
                Ok(bytes)
            },
            Err(_) => {
                self.stage = ChildStage::Failed;
                Err(Error::BootstrapFailed(Cause::Io))
            },
        }
    }

    /// Hands out the frame that tells the main process that Init is alive.
    /// It is the first thing the child sends: at any later stage, or on a
    /// closed end, the handshake fails instead.
    pub fn send_child_ready(&mut self) -> (frame: Result<Vec<u8>, Error>)
        ensures
            framed(frame) == old(self)@.sending(ChildStage::Forked, Message::ChildReady),
            final(self)@ == old(self)@.after_send(ChildStage::Forked, ChildStage::Announced),
    {
        self.advance(ChildStage::Forked, ChildStage::Announced, Message::ChildReady)
    }

    /// Hands out the frame that asks the main process to write the identifier
    /// mapping. It may follow `ChildReady` only: at any other stage, or on a
    /// closed end, the handshake fails instead.
    pub fn request_identifier_mapping(&mut self) -> (frame: Result<Vec<u8>, Error>)
        ensures
            framed(frame) == old(self)@.sending(
                ChildStage::Announced,
                Message::RequestIdentifierMapping,
            ),
            final(self)@ == old(self)@.after_send(ChildStage::Announced, ChildStage::Requested),
    {
        self.advance(
            ChildStage::Announced,
            ChildStage::Requested,
            Message::RequestIdentifierMapping,
        )
    }

    /// Takes what a bounded wait on the reading end reported, and the bytes
    /// read if it was ready. The child may go on only if it had asked for the
    /// mapping and the bytes are `MappingAck`; a timeout, a closed pipe and
    /// any other bytes fail the handshake.
    pub fn wait_for_mapping_ack(&mut self, readiness: Readiness, bytes: &[u8]) -> (done: Result<
        (),
        Error,
    >)
        ensures
            done == old(self)@.acknowledging(readiness, bytes@),
            final(self)@ == old(self)@.after_ack(readiness, bytes@),
    {
        if self.stage != ChildStage::Requested {
            self.stage = ChildStage::Failed;
            return Err(Error::BootstrapFailed(Cause::Protocol));
        }
        if readiness == Readiness::TimedOut {
            self.stage = ChildStage::Failed;
            return Err(Error::BootstrapFailed(Cause::TimedOut));
        }
        match self.receiver.receive(bytes) {
            Ok(Message::MappingAck) => {
                self.stage = ChildStage::Acknowledged;
                Ok(())
            },
            Ok(_) => {
                self.stage = ChildStage::Failed;
                Err(Error::BootstrapFailed(Cause::Protocol))
            },
            Err(e) => {
                self.stage = ChildStage::Failed;
                Err(e.during_bootstrap())
            },
        }
    }
}

/// The child sends its messages in the order of the handshake and never
/// twice: a send is in order at exactly one stage, it leads to the next, and
/// whatever is out of turn leaves the channel failed, where nothing is in
/// order any more.
pub proof fn law_child_sends_in_order(channel: ParentChannelView, due: ChildStage, next: ChildStage)
    requires
        next != due,
        due != ChildStage::Failed,
    ensures
        channel.send_fault(due).is_none() ==> channel.stage == due && channel.after_send(
            due,
            next,
        ).stage == next,
        channel.after_send(due, next).send_fault(due).is_some(),
        channel.at(ChildStage::Failed).send_fault(due).is_some(),
        channel.at(ChildStage::Failed).after_send(due, next).stage == ChildStage::Failed,
{
}

/// The child goes on past the mapping only after `MappingAck` has arrived:
/// the wait succeeds only if the bytes read are the frame of `MappingAck`,
/// and only if the child had asked for the mapping before.
pub proof fn law_child_proceeds_only_on_ack(
    channel: ParentChannelView,
    readiness: Readiness,
    bytes: Seq<u8>,
)
    requires
        channel.acknowledging(readiness, bytes).is_ok(),
    ensures
        channel.stage == ChildStage::Requested,
        readiness == Readiness::Ready,
        bytes == Message::MappingAck.encoding(),
        channel.after_ack(readiness, bytes).stage == ChildStage::Acknowledged,
{
    crate::message::law_only_encodings_decode(bytes, Message::MappingAck);
}

} // verus!
