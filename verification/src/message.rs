//! The handshake messages and their encoding on a pipe.

use vstd::prelude::*;
use crate::error::Error;

verus! {

/// The process that a message leaves from or arrives at.
#[derive(Clone, Copy, Debug, PartialEq, Eq, Structural)]
pub enum ProcessRole {
    /// The runtime process that was invoked.
    Main,
    /// The first duplicate, which brings up Init.
    Child,
    /// The process that becomes the container's payload.
    Init,
}

/// A signal of the handshake. The variants are listed in the order in which a
/// bootstrap exchanges them.
#[derive(Clone, Copy, Debug, PartialEq, Eq, Structural)]
pub enum Message {
    /// Child to Main: Init has been duplicated and is alive.
    ChildReady,
    /// Init to Main: write the user and group identifier mapping now.
    RequestIdentifierMapping,
    /// Main to Init: the mapping is written, proceed.
    MappingAck,
}

/// The number of bytes that every message occupies on a pipe.
pub const FRAME_LEN: usize = 1;

impl Message {
    /// The byte that stands for the message.
    pub open spec fn tag(self) -> u8 {
        match self {
            Message::ChildReady => 0u8,
            Message::RequestIdentifierMapping => 1u8,
            Message::MappingAck => 2u8,
        }
    }

    /// The bytes that carry the message on a pipe.
    pub open spec fn encoding(self) -> Seq<u8> {
        seq![self.tag()]
    }

    /// The role that sends the message.
    pub open spec fn origin(self) -> ProcessRole {
        match self {
            Message::ChildReady => ProcessRole::Child,
            Message::RequestIdentifierMapping => ProcessRole::Init,
            Message::MappingAck => ProcessRole::Main,
        }
    }

    /// The role that the message is meant for.
    pub open spec fn destination(self) -> ProcessRole {
        match self {
            Message::ChildReady => ProcessRole::Main,
            Message::RequestIdentifierMapping => ProcessRole::Main,
            Message::MappingAck => ProcessRole::Init,
        }
    }

    /// The role that sends the message.
    pub fn sender(&self) -> (role: ProcessRole)
        ensures
            role == self.origin(),
    {
        match self {
            Message::ChildReady => ProcessRole::Child,
            Message::RequestIdentifierMapping => ProcessRole::Init,
            Message::MappingAck => ProcessRole::Main,
        }
    }

    /// The role that the message is meant for.
    pub fn receiver(&self) -> (role: ProcessRole)
        ensures
            role == self.destination(),
    {
        match self {
            Message::MappingAck => ProcessRole::Init,
            _ => ProcessRole::Main,
        }
    }

    /// Encodes the message as one frame of `FRAME_LEN` bytes.
    pub fn encode(&self) -> (frame: Vec<u8>)
        ensures
            frame@ == self.encoding(),
            frame@.len() == FRAME_LEN,
    {
        let tag: u8 = match self {
            Message::ChildReady => 0u8,
            Message::RequestIdentifierMapping => 1u8,
            Message::MappingAck => 2u8,
        };
        let mut frame: Vec<u8> = Vec::new();
        frame.push(tag);
        assert(frame@ =~= self.encoding());
        frame
    }

    /// Decodes one frame. The bytes must be exactly the encoding of a message;
    /// anything else, a frame of another length included, is a
    /// `ProtocolError`.
    pub fn decode(bytes: &[u8]) -> (decoded: Result<Message, Error>)
        ensures
            decoded == match decoding(bytes@) {
                Some(message) => Ok::<Message, Error>(message),
                None => Err(Error::ProtocolError),
            },
    {
        if bytes.len() != FRAME_LEN {
            return Err(Error::ProtocolError);
        }
        let tag: u8 = bytes[0];
        if tag == 0u8 {
            Ok(Message::ChildReady)
        } else if tag == 1u8 {
            Ok(Message::RequestIdentifierMapping)
        } else if tag == 2u8 {
            Ok(Message::MappingAck)
        } else {
            Err(Error::ProtocolError)
        }
    }
}

/// The message that a frame carries, if it carries one.
pub open spec fn decoding(bytes: Seq<u8>) -> Option<Message> {
    if bytes.len() != FRAME_LEN {
        None
    } else if bytes[0] == 0u8 {
        Some(Message::ChildReady)
    } else if bytes[0] == 1u8 {
        Some(Message::RequestIdentifierMapping)
    } else if bytes[0] == 2u8 {
        Some(Message::MappingAck)
    } else {
        None
    }
}

/// Decoding undoes encoding.
pub proof fn law_decode_inverts_encode(m: Message)
    ensures
        decoding(m.encoding()) == Some(m),
{
    assert(m.encoding()[0] == m.tag());
}

/// A frame decodes to a message only if it is that message's encoding, so no
/// other bytes are ever taken for a message.
pub proof fn law_only_encodings_decode(bytes: Seq<u8>, m: Message)
    ensures
        decoding(bytes) == Some(m) <==> bytes == m.encoding(),
{
    assert(m.encoding()[0] == m.tag());
    if decoding(bytes) == Some(m) {
        assert(bytes =~= m.encoding());
    }
}

/// Two messages never share a frame, and every frame has the fixed length.
pub proof fn law_encoding_is_injective(a: Message, b: Message)
    ensures
        a.encoding() == b.encoding() <==> a == b,
        a.encoding().len() == FRAME_LEN,
{
    assert(a.encoding()[0] == a.tag());
    assert(b.encoding()[0] == b.tag());
}

} // verus!
