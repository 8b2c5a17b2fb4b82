//! The command ring: which bytes are pending, and whether the bytes at the
//! consumer hold a whole record that can be parsed.
use vstd::prelude::*;

use crate::control::ControlRegion;
use crate::protocol::CommandHeader;

verus! {

/// The contiguous run of pending bytes that starts at the consumer.
#[derive(Debug, Clone, Copy, PartialEq, Eq, Structural)]
pub struct PendingWindow {
    /// Index in the ring of the consumer's byte.
    pub offset: usize,
    /// Bytes that can be read from `offset` without crossing the wrap.
    pub len: usize,
    /// Bytes written by the guest and not yet consumed.
    pub pending: u64,
    /// Bytes from `offset` up to the wrap.
    pub to_wrap: usize,
}

pub open spec fn min_int(a: int, b: int) -> int {
    if a <= b {
        a
    } else {
        b
    }
}

/// The window of a ring of `ring_len` bytes with the given counters. Counters
/// are taken modulo the ring size only to index it.
pub open spec fn spec_window(consumer: u64, producer: u64, ring_len: usize) -> PendingWindow
    recommends
        ring_len > 0,
        consumer <= producer,
{
    let offset = (consumer as int % ring_len as int) as usize;
    let to_wrap = (ring_len - offset) as usize;
    let pending = (producer - consumer) as u64;
    PendingWindow {
        offset,
        len: min_int(pending as int, to_wrap as int) as usize,
        pending,
        to_wrap,
    }
}

/// Where the pending bytes of a ring of `ring_len` bytes start, and how many of
/// them can be read before the wrap. `None` when nothing is pending or the ring
/// is empty.
pub fn pending_window(control: &ControlRegion, ring_len: usize) -> (r: Option<PendingWindow>)
    requires
        control.wf(),
    ensures
        r is None <==> (control@.producer == control@.consumer || ring_len == 0),
        r matches Some(w) ==> {
            &&& w == spec_window(control@.consumer, control@.producer, ring_len)
            &&& w.offset < ring_len
            &&& 0 < w.len <= w.to_wrap
            &&& w.offset + w.to_wrap == ring_len
        },
{
    let pending = control.pending_bytes();
    if pending == 0 || ring_len == 0 {
        return None;
    }
    let consumer = control.consumer_ptr();
    let offset = (consumer % (ring_len as u64)) as usize;
    let to_wrap = ring_len - offset;
    let len = if pending < to_wrap as u64 {
        pending as usize
    } else {
        to_wrap
    };
    Some(PendingWindow { offset, len, pending, to_wrap })
}

/// Why the bytes at the consumer cannot be a record.
#[derive(Debug, Clone, Copy, PartialEq, Eq, Structural)]
pub enum FramingError {
    /// The header declares fewer bytes than the header itself.
    RecordTooSmall,
    /// The record would run past the end of the ring: the guest did not pad.
    CrossesWrap,
    /// The record runs past the bytes handed to the engine.
    Truncated,
}

/// What the consumer may do with the bytes at the head of the ring.
#[derive(Debug, Clone, Copy, PartialEq, Eq, Structural)]
pub enum Frame {
    /// The record is not all written yet: parse nothing.
    Wait,
    /// A whole record of this many bytes lies at the head of the window.
    Ready(usize),
    /// The stream is broken: the session ends.
    Fatal(FramingError),
}

/// The decision for a window whose bytes are `s`, with `pending` bytes
/// pending and `to_wrap` bytes before the wrap.
pub open spec fn spec_frame(s: Seq<u8>, pending: u64, to_wrap: usize) -> Frame {
    if pending < 16 {
        Frame::Wait
    } else if to_wrap < 16 {
        Frame::Fatal(FramingError::CrossesWrap)
    } else {
        let size = CommandHeader::parse(s).command_size;
        if size < 16 {
            Frame::Fatal(FramingError::RecordTooSmall)
        } else if size as int > pending as int {
            Frame::Wait
        } else if size as int > to_wrap as int {
            Frame::Fatal(FramingError::CrossesWrap)
        } else {
            Frame::Ready(size as usize)
        }
    }
}

/// Decides whether the head of the window holds a whole record. A header that
/// declares fewer than 16 bytes is fatal; a record not yet fully written is
/// waited for; a fully written record that runs past the wrap is fatal, and no
/// byte past the wrap is read.
pub fn frame_record(window: &[u8], pending: u64, to_wrap: usize) -> (r: Frame)
    requires
        window@.len() == min_int(pending as int, to_wrap as int),
    ensures
        r == spec_frame(window@, pending, to_wrap),
        r matches Frame::Ready(n) ==> 16 <= n <= window@.len(),
{
    if pending < 16 {
        return Frame::Wait;
    }
    if to_wrap < 16 {
        return Frame::Fatal(FramingError::CrossesWrap);
    }
    let header = CommandHeader::read(window);
    let size = header.command_size;
    if size < 16 {
        Frame::Fatal(FramingError::RecordTooSmall)
    } else if size as u64 > pending {
        Frame::Wait
    } else if size as usize > to_wrap {
        Frame::Fatal(FramingError::CrossesWrap)
    } else {
        Frame::Ready(size as usize)
    }
}

} // verus!
