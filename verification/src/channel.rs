//! The two ends of a one-directional pipe, and the registration that lets a
//! process wait for its readable end.
//!
//! An endpoint here is the runtime's record of a pipe end: the descriptor that
//! the operating system gave, and whether this process still holds it open.
//! The caller owns the pipe itself. It reports what the operating system
//! answered, sends the frames that `send` hands out, and passes in the bytes
//! that it read.

use vstd::prelude::*;
use crate::error::Error;
use crate::message::{decoding, Message, ProcessRole};

verus! {

/// The direction of a pipe: the role that writes to it and the role that
/// reads from it.
#[derive(Clone, Copy, Debug, PartialEq, Eq, Structural)]
pub struct Route {
    /// The role that sends.
    pub from: ProcessRole,
    /// The role that receives.
    pub to: ProcessRole,
}

impl Route {
    /// Whether `role` keeps the writing end after a duplication.
    pub open spec fn keeps_sender(self, role: ProcessRole) -> bool {
        role == self.from
    }

    /// Whether `role` keeps the reading end after a duplication.
    pub open spec fn keeps_receiver(self, role: ProcessRole) -> bool {
        role == self.to
    }
}

/// What an endpoint is, as a plain value.
pub struct EndpointView {
    /// The descriptor of the pipe end.
    pub descriptor: int,
    /// Whether this process holds the end open.
    pub open: bool,
    /// Whether a waiter is registered for the end.
    pub watched: bool,
}

/// The writing end of a pipe.
#[derive(Debug)]
pub struct SendEndpoint {
    descriptor: i32,
    open: bool,
}

/// The reading end of a pipe.
#[derive(Debug)]
pub struct ReceiveEndpoint {
    descriptor: i32,
    open: bool,
    watched: bool,
}

/// What a waiter is, as a plain value.
pub struct WaiterView {
    /// The descriptor of the receive endpoint that the waiter watches.
    pub descriptor: int,
    /// The readiness token under which the endpoint is registered.
    pub token: int,
}

/// The registration of one receive endpoint under a readiness token.
#[derive(Debug)]
pub struct Waiter {
    descriptor: i32,
    token: usize,
}

/// What a bounded wait ended with.
#[derive(Clone, Copy, Debug, PartialEq, Eq, Structural)]
pub enum Readiness {
    /// The watched endpoint has something to read.
    Ready,
    /// The wait elapsed first.
    TimedOut,
}

impl View for SendEndpoint {
    type V = EndpointView;

    closed spec fn view(&self) -> EndpointView {
        EndpointView { descriptor: self.descriptor as int, open: self.open, watched: false }
    }
}

impl View for ReceiveEndpoint {
    type V = EndpointView;

    closed spec fn view(&self) -> EndpointView {
        EndpointView {
            descriptor: self.descriptor as int,
            open: self.open,
            watched: self.watched,
        }
    }
}

impl View for Waiter {
    type V = WaiterView;

    closed spec fn view(&self) -> WaiterView {
        WaiterView { descriptor: self.descriptor as int, token: self.token as int }
    }
}

/// An open endpoint on `descriptor` that no waiter watches.
pub open spec fn fresh_endpoint(descriptor: int) -> EndpointView {
    EndpointView { descriptor, open: true, watched: false }
}

/// Whether a waiter can be registered for the endpoint: it is open, and no
/// waiter watches it yet.
pub open spec fn registrable(endpoint: EndpointView) -> bool {
    endpoint.open && !endpoint.watched
}

/// What `receive` makes of the bytes read from an endpoint: a closed endpoint
/// and an empty read are an `IoError`, bytes that are no message a
/// `ProtocolError`.
pub open spec fn reception(open: bool, bytes: Seq<u8>) -> Result<Message, Error> {
    if !open || bytes.len() == 0 {
        Err(Error::IoError)
    } else {
        match decoding(bytes) {
            Some(message) => Ok(message),
            None => Err(Error::ProtocolError),
        }
    }
}

/// What `send` hands out, with the frame as plain bytes.
pub open spec fn framed(frame: Result<Vec<u8>, Error>) -> Result<Seq<u8>, Error> {
    match frame {
        Ok(bytes) => Ok(bytes@),
        Err(e) => Err(e),
    }
}

/// What `send` makes of a message: its frame, or an `IoError` on a closed
/// end.
pub open spec fn transmission(open: bool, message: Message) -> Result<Seq<u8>, Error> {
    if open {
        Ok(message.encoding())
    } else {
        Err(Error::IoError)
    }
}

/// Whether `token` is among the tokens that a wait reported.
pub open spec fn fired_has(fired: Seq<usize>, token: int) -> bool {
    exists|i: int| 0 <= i < fired.len() && fired[i] == token
}

/// Makes the two endpoints of a pipe from the descriptors that the operating
/// system allocated for its writing and its reading end, in this order.
/// `None` says that it allocated none, which is a `ResourceError`.
pub fn create_pair(handles: Option<(i32, i32)>) -> (pair: Result<
    (SendEndpoint, ReceiveEndpoint),
    Error,
>)
    ensures
        match handles {
            Some((writing, reading)) => pair matches Ok((sender, receiver))
                && sender@ == fresh_endpoint(writing as int)
                && receiver@ == fresh_endpoint(reading as int),
            None => pair matches Err(e) && e == Error::ResourceError,
        },
{
    match handles {
        Some((writing, reading)) => Ok(
            (
                SendEndpoint { descriptor: writing, open: true },
                ReceiveEndpoint { descriptor: reading, open: true, watched: false },
            ),
        ),
        None => Err(Error::ResourceError),
    }
}

/// Settles who owns the two ends of a pipe after a process duplicated
/// itself. Both processes hold both ends at that moment; each calls this
/// once, with its own role, and closes the ends that it does not keep. `role`
/// keeps the writing end only if it is the sender of `route`, and the reading
/// end only if it is the receiver. An end that was closed stays closed.
pub fn retain(
    role: ProcessRole,
    route: Route,
    sender: &mut SendEndpoint,
    receiver: &mut ReceiveEndpoint,
)
    ensures
        final(sender)@ == (EndpointView {
            open: old(sender)@.open && route.keeps_sender(role),
            ..old(sender)@
        }),
        final(receiver)@ == (EndpointView {
            open: old(receiver)@.open && route.keeps_receiver(role),
            ..old(receiver)@
        }),
{
    if role != route.from {
        sender.close();
    }
    if role != route.to {
        receiver.close();
    }
}

/// After a duplication each end of a pipe has one owner: exactly one role
/// keeps the writing end and exactly one the reading end, and where the pipe
/// joins two roles, none keeps both.
pub proof fn law_each_end_has_one_owner(route: Route, role: ProcessRole)
    ensures
        route.keeps_sender(role) <==> role == route.from,
        route.keeps_receiver(role) <==> role == route.to,
        route.from != route.to ==> !(route.keeps_sender(role) && route.keeps_receiver(role)),
{
}

/// Records the registration of `endpoint` under `token`. `granted` says
/// whether the operating system accepted it. The registration stands only if
/// it did, the endpoint is open, and no waiter watches it yet; otherwise the
/// endpoint is unchanged and the call is a `ResourceError`.
pub fn register(endpoint: &mut ReceiveEndpoint, token: usize, granted: bool) -> (waiter: Result<
    Waiter,
    Error,
>)
    ensures
        waiter.is_ok() <==> granted && registrable(old(endpoint)@),
        match waiter {
            Ok(w) => {
                &&& w@ == (WaiterView { descriptor: old(endpoint)@.descriptor, token: token as int })
                &&& final(endpoint)@ == (EndpointView { watched: true, ..old(endpoint)@ })
            },
            Err(e) => e == Error::ResourceError && final(endpoint)@ == old(endpoint)@,
        },
{
    if granted && endpoint.open && !endpoint.watched {
        endpoint.watched = true;
        Ok(Waiter { descriptor: endpoint.descriptor, token })
    } else {
        Err(Error::ResourceError)
    }
}

impl SendEndpoint {
    /// The open writing end that this process holds on `descriptor`, such as
    /// one that it was started with.
    pub fn new(descriptor: i32) -> (endpoint: Self)
        ensures
            endpoint@ == fresh_endpoint(descriptor as int),
    {
        SendEndpoint { descriptor, open: true }
    }

    /// The descriptor of the pipe end.
    pub fn descriptor(&self) -> (descriptor: i32)
        ensures
            descriptor == self@.descriptor,
    {
        self.descriptor
    }

    /// Whether this process holds the end open.
    pub fn is_open(&self) -> (open: bool)
        ensures
            open == self@.open,
    {
        self.open
    }

    /// The frame to write for `message`. A closed endpoint sends nothing: that
    /// is an `IoError`.
    pub fn send(&self, message: Message) -> (frame: Result<Vec<u8>, Error>)
        ensures
            framed(frame) == transmission(self@.open, message),
    {
        if self.open {
            Ok(message.encode())
        } else {
            Err(Error::IoError)
        }
    }

    /// Marks the end as closed by this process.
    pub fn close(&mut self)
        ensures
            final(self)@ == (EndpointView { open: false, ..old(self)@ }),
    {
        self.open = false;
    }
}

impl ReceiveEndpoint {
    /// The open reading end that this process holds on `descriptor`, such as
    /// one that it was started with. No waiter watches it yet.
    pub fn new(descriptor: i32) -> (endpoint: Self)
        ensures
            endpoint@ == fresh_endpoint(descriptor as int),
    {
        ReceiveEndpoint { descriptor, open: true, watched: false }
    }

    /// The descriptor of the pipe end.
    pub fn descriptor(&self) -> (descriptor: i32)
        ensures
            descriptor == self@.descriptor,
    {
        self.descriptor
    }

    /// Whether this process holds the end open.
    pub fn is_open(&self) -> (open: bool)
        ensures
            open == self@.open,
    {
        self.open
    }

    /// Whether a waiter is registered for the end.
    pub fn is_watched(&self) -> (watched: bool)
        ensures
            watched == self@.watched,
    {
        self.watched
    }

    /// Decodes the one message in `bytes`, which is what a read from the ready
    /// endpoint returned. An empty read means that the peer closed without
    /// sending.
    pub fn receive(&self, bytes: &[u8]) -> (message: Result<Message, Error>)
        ensures
            message == reception(self@.open, bytes@),
    {
        if !self.open || bytes.len() == 0 {
            Err(Error::IoError)
        } else {
            Message::decode(bytes)
        }
    }

    /// Marks the end as closed by this process.
    pub fn close(&mut self)
        ensures
            final(self)@ == (EndpointView { open: false, ..old(self)@ }),
    {
        self.open = false;
    }
}

impl Waiter {
    /// The descriptor of the receive endpoint that the waiter watches.
    pub fn descriptor(&self) -> (descriptor: i32)
        ensures
            descriptor == self@.descriptor,
    {
        self.descriptor
    }

    /// The readiness token of the registration.
    pub fn token(&self) -> (token: usize)
        ensures
            token == self@.token,
    {
        self.token
    }

    /// Tells what a bounded wait ended with, from the tokens that it reported:
    /// the endpoint is ready if its token is among them, and the wait timed
    /// out otherwise.
    pub fn wait(&self, fired: &[usize]) -> (readiness: Readiness)
        ensures
            readiness == if fired_has(fired@, self@.token) {
                Readiness::Ready
            } else {
                Readiness::TimedOut
            },
    {
        let mut i: usize = 0;
        while i < fired.len()
            invariant
                i <= fired.len(),
                forall|j: int| 0 <= j < i ==> fired@[j] != self@.token,
            decreases fired.len() - i,
        {
            if fired[i] == self.token {
                return Readiness::Ready;
            }
            i = i + 1;
        }
        Readiness::TimedOut
    }
}

} // verus!
