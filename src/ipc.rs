//! The control channel: 8-byte framed messages between the hypervisor device
//! and the host, and the rules of a session.
use vstd::prelude::*;

use crate::wire::{dword_at, read_dword, read_word, word_at, words_bytes, encode_words};

verus! {

pub const MSG_HANDSHAKE: u32 = 1;
pub const MSG_HANDSHAKE_ACK: u32 = 2;
pub const MSG_DOORBELL: u32 = 3;
pub const MSG_IRQ: u32 = 4;
pub const MSG_SHUTDOWN: u32 = 5;

/// Size of a message header, in bytes.
pub const MESSAGE_HEADER_SIZE: usize = 8;

/// Messages from the hypervisor device to the host.
#[derive(Debug, Clone, PartialEq, Eq)]
pub enum QemuMessage {
    /// Names the shared memory region and its size.
    Handshake { shmem_name: String, shmem_size: u64 },
    /// New commands are in the ring.
    Doorbell,
    Shutdown,
}

/// Messages from the host to the hypervisor device.
#[derive(Debug, Clone, Copy, PartialEq, Eq, Structural)]
pub enum BackendMessage {
    /// The handshake is accepted with these features.
    HandshakeAck { features: u64 },
    /// Asks for an interrupt to the guest.
    Irq { vector: u32 },
}

/// The header of every message.
#[derive(Debug, Clone, Copy, PartialEq, Eq, Structural)]
pub struct MessageHeader {
    pub msg_type: u32,
    pub payload_size: u32,
}

/// Why a message could not be read.
#[derive(Debug, Clone, Copy, PartialEq, Eq, Structural)]
pub enum IpcError {
    IncompleteHeader,
    HandshakeTooSmall,
    UnknownMessageType(u32),
}

impl MessageHeader {
    /// Reads a header from the first 8 bytes.
    pub fn decode(data: &[u8]) -> (r: Result<Self, IpcError>)
        ensures
            data@.len() < 8 ==> r == Err::<Self, IpcError>(IpcError::IncompleteHeader),
            data@.len() >= 8 ==> r == Ok::<Self, IpcError>(
                MessageHeader { msg_type: word_at(data@, 0), payload_size: word_at(data@, 1) },
            ),
    {
        if data.len() < MESSAGE_HEADER_SIZE {
            return Err(IpcError::IncompleteHeader);
        }
        Ok(MessageHeader { msg_type: read_word(data, 0), payload_size: read_word(data, 1) })
    }
}

/// The words of a host message on the wire: header, then payload.
pub open spec fn backend_words(msg: BackendMessage) -> Seq<u32> {
    match msg {
        BackendMessage::HandshakeAck { features } => seq![
            MSG_HANDSHAKE_ACK,
            8u32,
            (features & 0xffff_ffff) as u32,
            (features >> 32u64) as u32,
        ],
        BackendMessage::Irq { vector } => seq![MSG_IRQ, 4u32, vector],
    }
}

/// The bytes of a host message: an 8-byte header, then the little-endian payload.
pub fn encode_backend_message(msg: &BackendMessage) -> (r: Vec<u8>)
    ensures
        r@ == words_bytes(backend_words(*msg)),
{
    let mut ws: Vec<u32> = Vec::new();
    match msg {
        BackendMessage::HandshakeAck { features } => {
            ws.push(MSG_HANDSHAKE_ACK);
            ws.push(8);
            ws.push((*features & 0xffff_ffff) as u32);
            ws.push((*features >> 32u64) as u32);
        },
        BackendMessage::Irq { vector } => {
            ws.push(MSG_IRQ);
            ws.push(4);
            ws.push(*vector);
        },
    }
    assert(ws@ =~= backend_words(*msg));
    encode_words(ws.as_slice())
}

/// `s` without its trailing zero bytes.
pub open spec fn trim_trailing_nuls(s: Seq<u8>) -> Seq<u8>
    decreases s.len(),
{
    if s.len() > 0 && s.last() == 0 {
        trim_trailing_nuls(s.drop_last())
    } else {
        s
    }
}

/// The text that UTF-8 decoding gives for `bytes`, with every invalid sequence
/// replaced by U+FFFD.
pub uninterp spec fn utf8_lossy(bytes: Seq<u8>) -> Seq<char>;

/// Relies on `String::from_utf8_lossy`: decodes UTF-8, replacing each invalid
/// sequence; the text depends on the bytes alone.
#[verifier::external_body]
fn decode_utf8_lossy(bytes: &[u8]) -> (r: String)
    ensures
        r@ == utf8_lossy(bytes@),
{
    String::from_utf8_lossy(bytes).into_owned()
}

/// Length of `s` once its trailing zero bytes are dropped.
fn trimmed_len(s: &[u8]) -> (r: usize)
    ensures
        r <= s@.len(),
        s@.subrange(0, r as int) == trim_trailing_nuls(s@),
{
    let mut n = s.len();
    assert(s@.subrange(0, n as int) =~= s@);
    while n > 0 && s[n - 1] == 0
        invariant
            n <= s@.len(),
            trim_trailing_nuls(s@.subrange(0, n as int)) == trim_trailing_nuls(s@),
        decreases n,
    {
        assert(s@.subrange(0, n - 1) =~= s@.subrange(0, n as int).drop_last());
        n -= 1;
    }
    let ghost t = s@.subrange(0, n as int);
    assert(t.len() == 0 || t.last() != 0);
    assert(trim_trailing_nuls(t) == t);
    n
}

/// The message of type `msg_type` with this payload. A handshake payload is a
/// little-endian 64-bit size then a NUL-terminated UTF-8 name.
pub fn decode_qemu_message(msg_type: u32, payload: &[u8]) -> (r: Result<QemuMessage, IpcError>)
    ensures
        msg_type == MSG_HANDSHAKE && payload@.len() < 8 ==> r == Err::<QemuMessage, IpcError>(
            IpcError::HandshakeTooSmall,
        ),
        msg_type == MSG_HANDSHAKE && payload@.len() >= 8 ==> (r matches Ok(
            QemuMessage::Handshake { shmem_name, shmem_size },
        ) && shmem_size == dword_at(payload@, 0) && shmem_name@ == utf8_lossy(
            trim_trailing_nuls(payload@.subrange(8, payload@.len() as int)),
        )),
        msg_type == MSG_DOORBELL ==> r == Ok::<QemuMessage, IpcError>(QemuMessage::Doorbell),
        msg_type == MSG_SHUTDOWN ==> r == Ok::<QemuMessage, IpcError>(QemuMessage::Shutdown),
        msg_type != MSG_HANDSHAKE && msg_type != MSG_DOORBELL && msg_type != MSG_SHUTDOWN ==> r
            == Err::<QemuMessage, IpcError>(IpcError::UnknownMessageType(msg_type)),
{
    if msg_type == MSG_HANDSHAKE {
        if payload.len() < 8 {
            return Err(IpcError::HandshakeTooSmall);
        }
        let shmem_size = read_dword(payload, 0);
        let name_bytes = &payload[8..payload.len()];
        let n = trimmed_len(name_bytes);
        let shmem_name = decode_utf8_lossy(&name_bytes[0..n]);
        Ok(QemuMessage::Handshake { shmem_name, shmem_size })
    } else if msg_type == MSG_DOORBELL {
        Ok(QemuMessage::Doorbell)
    } else if msg_type == MSG_SHUTDOWN {
        Ok(QemuMessage::Shutdown)
    } else {
        Err(IpcError::UnknownMessageType(msg_type))
    }
}

/// What the host does with a message of the session.
#[derive(Debug, Clone, Copy, PartialEq, Eq, Structural)]
pub enum ChannelAction {
    /// Open the named region and answer with a handshake acknowledgement.
    AcceptHandshake,
    /// Wake the service loop.
    SignalDoorbell,
    /// Log the protocol violation and go on.
    Ignore,
    /// Set the shutdown flag and release the service loop.
    StopSession,
}

/// What the reader sees on the channel.
#[derive(Debug, Clone, Copy, PartialEq, Eq, Structural)]
pub enum ChannelEvent {
    Handshake,
    Doorbell,
    Shutdown,
    ReadFailed,
}

/// One session of the control channel: a handshake is accepted once, and
/// before any doorbell.
#[derive(Debug, Clone, Copy, PartialEq, Eq, Structural)]
pub struct ChannelSession {
    pub handshake_done: bool,
    pub stopped: bool,
}

impl ChannelSession {
    pub fn new() -> (r: Self)
        ensures
            !r.handshake_done && !r.stopped,
    {
        ChannelSession { handshake_done: false, stopped: false }
    }

    /// The action for `event`. A second handshake, and a doorbell before the
    /// handshake, are ignored; a shutdown or a failed read ends the session.
    pub fn on_event(&mut self, event: ChannelEvent) -> (r: ChannelAction)
        ensures
            old(self).stopped ==> r == ChannelAction::Ignore && *final(self) == *old(self),
            !old(self).stopped ==> match event {
                ChannelEvent::Handshake => if old(self).handshake_done {
                    r == ChannelAction::Ignore && *final(self) == *old(self)
                } else {
                    r == ChannelAction::AcceptHandshake && final(self).handshake_done
                        && !final(self).stopped
                },
                ChannelEvent::Doorbell => *final(self) == *old(self) && r == if old(
                    self,
                ).handshake_done {
                    ChannelAction::SignalDoorbell
                } else {
                    ChannelAction::Ignore
                },
                _ => r == ChannelAction::StopSession && final(self).stopped
                    && final(self).handshake_done == old(self).handshake_done,
            },
    {
        if self.stopped {
            return ChannelAction::Ignore;
        }
        match event {
            ChannelEvent::Handshake => {
                if self.handshake_done {
                    ChannelAction::Ignore
                } else {
                    self.handshake_done = true;
                    ChannelAction::AcceptHandshake
                }
            },
            ChannelEvent::Doorbell => {
                if self.handshake_done {
                    ChannelAction::SignalDoorbell
                } else {
                    ChannelAction::Ignore
                }
            },
            _ => {
                self.stopped = true;
                ChannelAction::StopSession
            },
        }
    }
}

} // verus!
