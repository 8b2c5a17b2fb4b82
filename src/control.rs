//! The control region at offset 0 of the shared memory: its byte layout, and
//! the host's model of it. The host reads the guest-written fields from the
//! shared image and publishes the fields it owns (consumer pointer, completed
//! fence, status and error) back to it.
use vstd::prelude::*;

use crate::protocol::{PVGPU_CONTROL_REGION_SIZE, PVGPU_MAGIC, PVGPU_STATUS_DEVICE_LOST,
    PVGPU_STATUS_ERROR, PVGPU_STATUS_READY, PVGPU_VERSION_MAJOR};
use crate::wire::{dword_at, read_dword, read_word, word_at};

verus! {

/// Size of a cache line, in bytes.
pub const CACHE_LINE_SIZE: usize = 64;

/// Byte offsets of the fields of the control region.
pub const OFFSET_MAGIC: usize = 0x000;
pub const OFFSET_VERSION: usize = 0x004;
pub const OFFSET_FEATURES: usize = 0x008;
pub const OFFSET_RING_OFFSET: usize = 0x010;
pub const OFFSET_RING_SIZE: usize = 0x014;
pub const OFFSET_HEAP_OFFSET: usize = 0x018;
pub const OFFSET_HEAP_SIZE: usize = 0x01C;
pub const OFFSET_PRODUCER_PTR: usize = 0x020;
pub const OFFSET_CONSUMER_PTR: usize = 0x060;
pub const OFFSET_GUEST_FENCE_REQUEST: usize = 0x0A0;
pub const OFFSET_HOST_FENCE_COMPLETED: usize = 0x0E0;
pub const OFFSET_STATUS: usize = 0x120;
pub const OFFSET_ERROR_CODE: usize = 0x124;
pub const OFFSET_ERROR_DATA: usize = 0x128;
pub const OFFSET_DISPLAY_WIDTH: usize = 0x130;
pub const OFFSET_DISPLAY_HEIGHT: usize = 0x134;
pub const OFFSET_DISPLAY_REFRESH: usize = 0x138;
pub const OFFSET_DISPLAY_FORMAT: usize = 0x13C;
pub const OFFSET_RESERVED: usize = 0x140;

/// The cache line, counted from the start of the region, that holds byte `off`.
pub open spec fn cache_line_of(off: int) -> int {
    off / (CACHE_LINE_SIZE as int)
}

/// The region is exactly 4096 bytes. Each of the four hot 64-bit counters lies
/// within one cache line, the four lines are distinct, the counters are 64
/// bytes apart, and no field written by the other side shares a line with a
/// counter that the host writes.
pub proof fn lemma_control_layout()
    ensures
        PVGPU_CONTROL_REGION_SIZE == 4096,
        OFFSET_RESERVED + 0xEC0 == PVGPU_CONTROL_REGION_SIZE,
        cache_line_of(OFFSET_PRODUCER_PTR as int) == cache_line_of(OFFSET_PRODUCER_PTR + 7),
        cache_line_of(OFFSET_CONSUMER_PTR as int) == cache_line_of(OFFSET_CONSUMER_PTR + 7),
        cache_line_of(OFFSET_GUEST_FENCE_REQUEST as int) == cache_line_of(
            OFFSET_GUEST_FENCE_REQUEST + 7,
        ),
        cache_line_of(OFFSET_HOST_FENCE_COMPLETED as int) == cache_line_of(
            OFFSET_HOST_FENCE_COMPLETED + 7,
        ),
        cache_line_of(OFFSET_PRODUCER_PTR as int) == 0,
        cache_line_of(OFFSET_CONSUMER_PTR as int) == 1,
        cache_line_of(OFFSET_GUEST_FENCE_REQUEST as int) == 2,
        cache_line_of(OFFSET_HOST_FENCE_COMPLETED as int) == 3,
        OFFSET_PRODUCER_PTR + CACHE_LINE_SIZE == OFFSET_CONSUMER_PTR,
        OFFSET_CONSUMER_PTR + CACHE_LINE_SIZE == OFFSET_GUEST_FENCE_REQUEST,
        OFFSET_GUEST_FENCE_REQUEST + CACHE_LINE_SIZE == OFFSET_HOST_FENCE_COMPLETED,
        OFFSET_HOST_FENCE_COMPLETED + CACHE_LINE_SIZE == OFFSET_STATUS,
        cache_line_of(OFFSET_STATUS as int) == 4,
{
}

/// The host's model of the control region. The padding fields keep the
/// model the same size as the shared image.
pub struct ControlRegion {
    pub magic: u32,
    pub version: u32,
    pub features: u64,
    pub ring_offset: u32,
    pub ring_size: u32,
    pub heap_offset: u32,
    pub heap_size: u32,
    producer_ptr_raw: u64,
    _pad_producer: [u8; 56],
    consumer_ptr_raw: u64,
    _pad_consumer: [u8; 56],
    guest_fence_request_raw: u64,
    _pad_guest_fence: [u8; 56],
    host_fence_completed_raw: u64,
    _pad_host_fence: [u8; 56],
    status: u32,
    error_code: u32,
    error_data: u32,
    _reserved1: u32,
    pub display_width: u32,
    pub display_height: u32,
    pub display_refresh: u32,
    pub display_format: u32,
    _reserved: [u8; 3776],
}

/// What the host knows of the control region.
pub struct ControlView {
    pub magic: u32,
    pub version: u32,
    pub features: u64,
    pub ring_offset: u32,
    pub ring_size: u32,
    pub heap_offset: u32,
    pub heap_size: u32,
    pub producer: u64,
    pub consumer: u64,
    pub guest_fence: u64,
    pub host_fence: u64,
    pub status: u32,
    pub error_code: u32,
    pub error_data: u32,
    pub display_width: u32,
    pub display_height: u32,
    pub display_refresh: u32,
    pub display_format: u32,
}

impl ControlView {
    /// The consumer never runs ahead of the producer.
    pub open spec fn wf(self) -> bool {
        self.consumer <= self.producer
    }

    /// The descriptors of the region are kept, and so is the guest's fence request.
    pub open spec fn same_guest_fields(self, other: Self) -> bool {
        &&& self.magic == other.magic
        &&& self.version == other.version
        &&& self.features == other.features
        &&& self.ring_offset == other.ring_offset
        &&& self.ring_size == other.ring_size
        &&& self.heap_offset == other.heap_offset
        &&& self.heap_size == other.heap_size
        &&& self.display_width == other.display_width
        &&& self.display_height == other.display_height
        &&& self.display_refresh == other.display_refresh
        &&& self.display_format == other.display_format
        &&& self.guest_fence == other.guest_fence
    }

    /// Everything but the status word and the error fields is kept.
    pub open spec fn same_counters(self, other: Self) -> bool {
        &&& self.same_guest_fields(other)
        &&& self.producer == other.producer
        &&& self.consumer == other.consumer
        &&& self.host_fence == other.host_fence
    }

    /// Everything but the status word is kept.
    pub open spec fn same_but_status(self, other: Self) -> bool {
        &&& self.same_counters(other)
        &&& self.error_code == other.error_code
        &&& self.error_data == other.error_data
    }
}

/// One change of the control region made by the host: the producer it has
/// seen and the consumer only move forward, the consumer stays behind the
/// producer, and the completed fence never moves back.
pub open spec fn host_step(a: ControlView, b: ControlView) -> bool {
    &&& b.producer >= a.producer
    &&& b.consumer >= a.consumer
    &&& b.consumer <= b.producer
    &&& b.host_fence >= a.host_fence
}

/// Over a session made of host steps from a region whose consumer is behind
/// its producer, every later state keeps the consumer behind the producer,
/// and neither counter nor the completed fence is ever lower than before.
pub proof fn lemma_session_monotone(trace: Seq<ControlView>, i: int, j: int)
    requires
        trace.len() > 0,
        trace[0].wf(),
        forall|k: int| 0 <= k < trace.len() - 1 ==> #[trigger] host_step(trace[k], trace[k + 1]),
        0 <= i <= j < trace.len(),
    ensures
        trace[j].wf(),
        trace[i].producer <= trace[j].producer,
        trace[i].consumer <= trace[j].consumer,
        trace[i].host_fence <= trace[j].host_fence,
    decreases j,
{
    if j > 0 {
        let k = j - 1;
        assert(host_step(trace[k], trace[k + 1]));
        assert(k + 1 == j);
        if i < j {
            lemma_session_monotone(trace, i, j - 1);
        }
    }
}

impl View for ControlRegion {
    type V = ControlView;

    closed spec fn view(&self) -> ControlView {
        ControlView {
            magic: self.magic,
            version: self.version,
            features: self.features,
            ring_offset: self.ring_offset,
            ring_size: self.ring_size,
            heap_offset: self.heap_offset,
            heap_size: self.heap_size,
            producer: self.producer_ptr_raw,
            consumer: self.consumer_ptr_raw,
            guest_fence: self.guest_fence_request_raw,
            host_fence: self.host_fence_completed_raw,
            status: self.status,
            error_code: self.error_code,
            error_data: self.error_data,
            display_width: self.display_width,
            display_height: self.display_height,
            display_refresh: self.display_refresh,
            display_format: self.display_format,
        }
    }
}

impl ControlRegion {
    pub open spec fn wf(&self) -> bool {
        self@.wf()
    }

    /// A region as the guest sets it up: counters, status and error at zero.
    pub fn new(
        version: u32,
        features: u64,
        ring_offset: u32,
        ring_size: u32,
        heap_offset: u32,
        heap_size: u32,
    ) -> (r: Self)
        ensures
            r.wf(),
            r@.magic == PVGPU_MAGIC,
            r@.version == version,
            r@.features == features,
            r@.ring_offset == ring_offset,
            r@.ring_size == ring_size,
            r@.heap_offset == heap_offset,
            r@.heap_size == heap_size,
            r@.display_width == 0 && r@.display_height == 0,
            r@.display_refresh == 0 && r@.display_format == 0,
            r@.producer == 0,
            r@.consumer == 0,
            r@.guest_fence == 0,
            r@.host_fence == 0,
            r@.status == 0,
            r@.error_code == 0,
            r@.error_data == 0,
    {
        ControlRegion {
            magic: PVGPU_MAGIC,
            version,
            features,
            ring_offset,
            ring_size,
            heap_offset,
            heap_size,
            producer_ptr_raw: 0,
            _pad_producer: [0u8; 56],
            consumer_ptr_raw: 0,
            _pad_consumer: [0u8; 56],
            guest_fence_request_raw: 0,
            _pad_guest_fence: [0u8; 56],
            host_fence_completed_raw: 0,
            _pad_host_fence: [0u8; 56],
            status: 0,
            error_code: 0,
            error_data: 0,
            _reserved1: 0,
            display_width: 0,
            display_height: 0,
            display_refresh: 0,
            display_format: 0,
            _reserved: [0u8; 3776],
        }
    }

    /// Reads the model from a shared image of at least 4096 bytes. `None` when
    /// the image is shorter, or its consumer pointer is ahead of its producer pointer.
    pub fn decode(image: &[u8]) -> (r: Option<Self>)
        ensures
            image@.len() < 4096 ==> r is None,
            image@.len() >= 4096 && dword_at(image@, 0x18) > dword_at(image@, 0x08) ==> r is None,
            r matches Some(c) ==> {
                &&& c.wf()
                &&& c@.magic == word_at(image@, 0)
                &&& c@.version == word_at(image@, 1)
                &&& c@.features == dword_at(image@, 2)
                &&& c@.ring_offset == word_at(image@, 4)
                &&& c@.ring_size == word_at(image@, 5)
                &&& c@.heap_offset == word_at(image@, 6)
                &&& c@.heap_size == word_at(image@, 7)
                &&& c@.producer == dword_at(image@, 0x08)
                &&& c@.consumer == dword_at(image@, 0x18)
                &&& c@.guest_fence == dword_at(image@, 0x28)
                &&& c@.host_fence == dword_at(image@, 0x38)
                &&& c@.status == word_at(image@, 0x48)
                &&& c@.error_code == word_at(image@, 0x49)
                &&& c@.error_data == word_at(image@, 0x4A)
                &&& c@.display_width == word_at(image@, 0x4C)
                &&& c@.display_height == word_at(image@, 0x4D)
                &&& c@.display_refresh == word_at(image@, 0x4E)
                &&& c@.display_format == word_at(image@, 0x4F)
            },
            image@.len() >= 4096 && dword_at(image@, 0x18) <= dword_at(image@, 0x08) ==> r is Some,
    {
        if image.len() < PVGPU_CONTROL_REGION_SIZE {
            return None;
        }
        let producer = read_dword(image, OFFSET_PRODUCER_PTR / 4);
        let consumer = read_dword(image, OFFSET_CONSUMER_PTR / 4);
        if consumer > producer {
            return None;
        }
        Some(ControlRegion {
            magic: read_word(image, OFFSET_MAGIC / 4),
            version: read_word(image, OFFSET_VERSION / 4),
            features: read_dword(image, OFFSET_FEATURES / 4),
            ring_offset: read_word(image, OFFSET_RING_OFFSET / 4),
            ring_size: read_word(image, OFFSET_RING_SIZE / 4),
            heap_offset: read_word(image, OFFSET_HEAP_OFFSET / 4),
            heap_size: read_word(image, OFFSET_HEAP_SIZE / 4),
            producer_ptr_raw: producer,
            _pad_producer: [0u8; 56],
            consumer_ptr_raw: consumer,
            _pad_consumer: [0u8; 56],
            guest_fence_request_raw: read_dword(image, OFFSET_GUEST_FENCE_REQUEST / 4),
            _pad_guest_fence: [0u8; 56],
            host_fence_completed_raw: read_dword(image, OFFSET_HOST_FENCE_COMPLETED / 4),
            _pad_host_fence: [0u8; 56],
            status: read_word(image, OFFSET_STATUS / 4),
            error_code: read_word(image, OFFSET_ERROR_CODE / 4),
            error_data: read_word(image, OFFSET_ERROR_DATA / 4),
            _reserved1: 0,
            display_width: read_word(image, OFFSET_DISPLAY_WIDTH / 4),
            display_height: read_word(image, OFFSET_DISPLAY_HEIGHT / 4),
            display_refresh: read_word(image, OFFSET_DISPLAY_REFRESH / 4),
            display_format: read_word(image, OFFSET_DISPLAY_FORMAT / 4),
            _reserved: [0u8; 3776],
        })
    }

    /// Checks the magic number and the major protocol version.
    pub fn validate(&self) -> (r: Result<(), &'static str>)
        ensures
            r is Ok <==> (self@.magic == PVGPU_MAGIC && (self@.version >> 16u32) == PVGPU_VERSION_MAJOR),
            self@.magic != PVGPU_MAGIC ==> r == Err::<(), &'static str>("Invalid magic number"),
            self@.magic == PVGPU_MAGIC && (self@.version >> 16u32) != PVGPU_VERSION_MAJOR ==> r == Err::<
                (),
                &'static str,
            >("Incompatible protocol version"),
    {
        if self.magic != PVGPU_MAGIC {
            return Err("Invalid magic number");
        }
        if (self.version >> 16u32) != PVGPU_VERSION_MAJOR {
            return Err("Incompatible protocol version");
        }
        Ok(())
    }

    pub fn producer_ptr(&self) -> (r: u64)
        ensures
            r == self@.producer,
    {
        self.producer_ptr_raw
    }

    pub fn consumer_ptr(&self) -> (r: u64)
        ensures
            r == self@.consumer,
    {
        self.consumer_ptr_raw
    }

    pub fn guest_fence_request(&self) -> (r: u64)
        ensures
            r == self@.guest_fence,
    {
        self.guest_fence_request_raw
    }

    pub fn host_fence_completed(&self) -> (r: u64)
        ensures
            r == self@.host_fence,
    {
        self.host_fence_completed_raw
    }

    /// Takes in a producer pointer read from the shared image. The producer only
    /// moves forward: a value behind the current one is refused and nothing changes.
    pub fn observe_producer(&mut self, value: u64) -> (r: bool)
        requires
            old(self).wf(),
        ensures
            old(self).wf() ==> host_step(old(self)@, final(self)@),
            final(self).wf(),
            r == (value >= old(self)@.producer),
            r ==> final(self)@.producer == value,
            !r ==> final(self)@.producer == old(self)@.producer,
            final(self)@.consumer == old(self)@.consumer,
            final(self)@.host_fence == old(self)@.host_fence,
            final(self)@.status == old(self)@.status,
            final(self)@.error_code == old(self)@.error_code,
            final(self)@.error_data == old(self)@.error_data,
            final(self)@.same_guest_fields(old(self)@),
    {
        if value < self.producer_ptr_raw {
            return false;
        }
        self.producer_ptr_raw = value;
        true
    }

    /// Takes in the guest's fence request read from the shared image.
    pub fn observe_guest_fence(&mut self, value: u64)
        ensures
            old(self).wf() ==> host_step(old(self)@, final(self)@),
            final(self)@.guest_fence == value,
            final(self)@.producer == old(self)@.producer,
            final(self)@.consumer == old(self)@.consumer,
            final(self)@.host_fence == old(self)@.host_fence,
            final(self)@.status == old(self)@.status,
            final(self)@.error_code == old(self)@.error_code,
            final(self)@.error_data == old(self)@.error_data,
            final(self)@.magic == old(self)@.magic && final(self)@.version == old(self)@.version,
            final(self)@.ring_size == old(self)@.ring_size,
    {
        self.guest_fence_request_raw = value;
    }

    /// Moves the consumer pointer forward to `value`, which must lie between the
    /// current consumer and the producer.
    pub fn set_consumer_ptr(&mut self, value: u64)
        requires
            old(self)@.consumer <= value <= old(self)@.producer,
        ensures
            old(self).wf() ==> host_step(old(self)@, final(self)@),
            final(self).wf(),
            final(self)@.consumer == value,
            final(self)@.producer == old(self)@.producer,
            final(self)@.host_fence == old(self)@.host_fence,
            final(self)@.status == old(self)@.status,
            final(self)@.error_code == old(self)@.error_code,
            final(self)@.error_data == old(self)@.error_data,
            final(self)@.same_guest_fields(old(self)@),
    {
        self.consumer_ptr_raw = value;
    }

    /// Marks `bytes` more bytes of the ring as consumed.
    pub fn advance_consumer(&mut self, bytes: u64)
        requires
            old(self).wf(),
            bytes <= old(self)@.producer - old(self)@.consumer,
        ensures
            old(self).wf() ==> host_step(old(self)@, final(self)@),
            final(self).wf(),
            final(self)@.consumer == old(self)@.consumer + bytes,
            final(self)@.producer == old(self)@.producer,
            final(self)@.host_fence == old(self)@.host_fence,
            final(self)@.status == old(self)@.status,
            final(self)@.error_code == old(self)@.error_code,
            final(self)@.error_data == old(self)@.error_data,
            final(self)@.same_guest_fields(old(self)@),
    {
        let next = self.consumer_ptr_raw + bytes;
        self.set_consumer_ptr(next);
    }

    /// Stores `value` as the completed fence, which never moves back.
    pub fn set_host_fence_completed(&mut self, value: u64)
        requires
            old(self)@.host_fence <= value,
        ensures
            old(self).wf() ==> host_step(old(self)@, final(self)@),
            final(self)@.host_fence == value,
            final(self)@.producer == old(self)@.producer,
            final(self)@.consumer == old(self)@.consumer,
            final(self)@.status == old(self)@.status,
            final(self)@.error_code == old(self)@.error_code,
            final(self)@.error_data == old(self)@.error_data,
            final(self)@.same_guest_fields(old(self)@),
    {
        self.host_fence_completed_raw = value;
    }

    /// Publishes `value` as the completed fence unless a later one was already
    /// published: the completed fence never moves back. Returns whether it moved.
    pub fn complete_fence(&mut self, value: u64) -> (r: bool)
        ensures
            old(self).wf() ==> host_step(old(self)@, final(self)@),
            r == (value > old(self)@.host_fence),
            final(self)@.host_fence == if r { value } else { old(self)@.host_fence },
            final(self)@.producer == old(self)@.producer,
            final(self)@.consumer == old(self)@.consumer,
            final(self)@.status == old(self)@.status,
            final(self)@.error_code == old(self)@.error_code,
            final(self)@.error_data == old(self)@.error_data,
            final(self)@.same_guest_fields(old(self)@),
    {
        if value > self.host_fence_completed_raw {
            self.host_fence_completed_raw = value;
            true
        } else {
            false
        }
    }

    pub fn has_pending_commands(&self) -> (r: bool)
        ensures
            r == (self@.producer > self@.consumer),
    {
        self.producer_ptr() > self.consumer_ptr()
    }

    /// Bytes written by the guest and not yet consumed (0 if the consumer is ahead).
    pub fn pending_bytes(&self) -> (r: u64)
        ensures
            r == if self@.producer >= self@.consumer {
                self@.producer - self@.consumer
            } else {
                0
            },
    {
        let p = self.producer_ptr();
        let c = self.consumer_ptr();
        if p >= c {
            p - c
        } else {
            0
        }
    }

    /// Replaces the whole status word.
    pub fn set_status(&mut self, status: u32)
        ensures
            old(self).wf() ==> host_step(old(self)@, final(self)@),
            final(self)@.status == status,
            final(self)@.same_but_status(old(self)@),
    {
        self.status = status;
    }

    pub fn get_status(&self) -> (r: u32)
        ensures
            r == self@.status,
    {
        self.status
    }

    /// Sets the bits of `flag` in the status word.
    pub fn set_status_flag(&mut self, flag: u32)
        ensures
            old(self).wf() ==> host_step(old(self)@, final(self)@),
            final(self)@.status == old(self)@.status | flag,
            final(self)@.same_but_status(old(self)@),
    {
        self.status = self.status | flag;
    }

    /// Clears the bits of `flag` in the status word.
    pub fn clear_status_flag(&mut self, flag: u32)
        ensures
            old(self).wf() ==> host_step(old(self)@, final(self)@),
            final(self)@.status == old(self)@.status & !flag,
            final(self)@.same_but_status(old(self)@),
    {
        self.status = self.status & !flag;
    }

    /// Records an error for the guest and sets the ERROR status bit.
    pub fn set_error(&mut self, code: u32, data: u32)
        ensures
            old(self).wf() ==> host_step(old(self)@, final(self)@),
            final(self)@.error_code == code,
            final(self)@.error_data == data,
            final(self)@.status == old(self)@.status | PVGPU_STATUS_ERROR,
            final(self)@.same_counters(old(self)@),
    {
        self.error_code = code;
        self.error_data = data;
        self.set_status_flag(PVGPU_STATUS_ERROR);
    }

    pub fn get_error_code(&self) -> (r: u32)
        ensures
            r == self@.error_code,
    {
        self.error_code
    }

    pub fn get_error_data(&self) -> (r: u32)
        ensures
            r == self@.error_data,
    {
        self.error_data
    }

    /// Sets the error code and datum to 0 and clears the ERROR status bit.
    pub fn clear_error(&mut self)
        ensures
            old(self).wf() ==> host_step(old(self)@, final(self)@),
            final(self)@.error_code == 0,
            final(self)@.error_data == 0,
            final(self)@.status == old(self)@.status & !PVGPU_STATUS_ERROR,
            final(self)@.same_counters(old(self)@),
    {
        self.error_code = 0;
        self.error_data = 0;
        self.clear_status_flag(PVGPU_STATUS_ERROR);
    }

    pub fn is_ready(&self) -> (r: bool)
        ensures
            r == (self@.status & PVGPU_STATUS_READY != 0),
    {
        (self.get_status() & PVGPU_STATUS_READY) != 0
    }

    pub fn has_error(&self) -> (r: bool)
        ensures
            r == (self@.status & PVGPU_STATUS_ERROR != 0),
    {
        (self.get_status() & PVGPU_STATUS_ERROR) != 0
    }

    pub fn is_device_lost(&self) -> (r: bool)
        ensures
            r == (self@.status & PVGPU_STATUS_DEVICE_LOST != 0),
    {
        (self.get_status() & PVGPU_STATUS_DEVICE_LOST) != 0
    }
}

} // verus!
