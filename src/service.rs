//! Decisions of the service loop. The loop itself (waiting on the doorbell,
//! calling the native device, talking on the control channel) runs outside
//! the library; each step hands its observations here and gets back what to
//! do, while the control region is updated in the host's model.
use vstd::prelude::*;

use crate::control::{host_step, ControlRegion};
use crate::ops::ReplayError;
use crate::protocol::{
    PVGPU_ERROR_DEVICE_LOST, PVGPU_ERROR_INTERNAL, PVGPU_ERROR_RESOURCE_NOT_FOUND,
    PVGPU_STATUS_DEVICE_LOST, PVGPU_STATUS_ERROR, PVGPU_STATUS_RESIZING,
};
use crate::ring::{frame_record, pending_window, spec_frame, spec_window, Frame, FramingError};

verus! {

/// Bytes drained in one batch before the loop lets other work run.
pub const DRAIN_BATCH_LIMIT: u64 = 0x10_0000;

/// Milliseconds the loop waits on the doorbell when idle.
pub const DOORBELL_WAIT_MS: u32 = 5;

/// Where the loop stands.
#[derive(Debug, Clone, Copy, PartialEq, Eq, Structural)]
pub enum LoopPhase {
    Running,
    /// The native device was lost: commands keep draining and are expected to fail.
    Degraded,
    Shutdown,
}

/// What the start of an iteration decided.
#[derive(Debug, Clone, Copy, PartialEq, Eq, Structural)]
pub enum IterationStart {
    Continue,
    Stop,
}

/// What to do after one record went through.
#[derive(Debug, Clone, Copy, PartialEq, Eq, Structural)]
pub struct DrainStep {
    /// Ask for one interrupt: a new fence was completed.
    pub send_irq: bool,
    /// Go on with the next record.
    pub keep_draining: bool,
}

/// What to do after a failed record.
#[derive(Debug, Clone, Copy, PartialEq, Eq, Structural)]
pub enum ErrorAction {
    /// The record was consumed; go on with the next one.
    Continue,
    /// Stop draining; the same record is tried again on the next iteration.
    StopDrain,
    /// The stream is broken: end the session.
    Terminate,
}

/// What the head of the ring holds.
#[derive(Debug, Clone, Copy, PartialEq, Eq, Structural)]
pub enum NextRecord {
    /// Nothing is pending.
    Empty,
    /// A record is being written: try again later.
    Wait,
    /// A whole record lies at `offset` in the ring.
    Ready { offset: usize, size: usize },
    Fatal(FramingError),
}

/// The outcome of presenting a frame.
#[derive(Debug, Clone, Copy, PartialEq, Eq, Structural)]
pub enum PresentOutcome {
    Presented,
    /// The backbuffer id does not name a texture.
    NotFound,
    Failed,
}

/// The loop's own state.
pub struct ServiceLoop {
    phase: LoopPhase,
    last_irq_fence: u64,
    device_lost_reported: bool,
    batch_bytes: u64,
}

pub struct LoopView {
    pub phase: LoopPhase,
    pub last_irq_fence: u64,
    pub device_lost_reported: bool,
    pub batch_bytes: u64,
}

impl View for ServiceLoop {
    type V = LoopView;

    closed spec fn view(&self) -> LoopView {
        LoopView {
            phase: self.phase,
            last_irq_fence: self.last_irq_fence,
            device_lost_reported: self.device_lost_reported,
            batch_bytes: self.batch_bytes,
        }
    }
}

/// The loop and the control region agree: every fence the loop signalled has
/// been published, and the consumer is behind the producer.
pub open spec fn in_step(l: LoopView, c: ControlRegion) -> bool {
    &&& c.wf()
    &&& c@.host_fence >= l.last_irq_fence
}

/// Finds the record at the head of the ring, reading no byte past the wrap.
pub fn next_record(control: &ControlRegion, ring: &[u8]) -> (r: NextRecord)
    requires
        control.wf(),
    ensures
        r is Empty <==> (control@.producer == control@.consumer || ring@.len() == 0),
        !(r is Empty) ==> {
            let w = spec_window(control@.consumer, control@.producer, ring@.len() as usize);
            let f = spec_frame(
                ring@.subrange(w.offset as int, w.offset + w.len),
                w.pending,
                w.to_wrap,
            );
            &&& f is Wait ==> r is Wait
            &&& f matches Frame::Fatal(e) ==> r == NextRecord::Fatal(e)
            &&& f matches Frame::Ready(n) ==> r == (NextRecord::Ready { offset: w.offset, size: n })
        },
        r matches NextRecord::Ready { offset, size } ==> 16 <= size && offset + size <= ring@.len()
            && size <= control@.producer - control@.consumer,
{
    let w = match pending_window(control, ring.len()) {
        Some(w) => w,
        None => return NextRecord::Empty,
    };
    let window = &ring[w.offset..w.offset + w.len];
    match frame_record(window, w.pending, w.to_wrap) {
        Frame::Wait => NextRecord::Wait,
        Frame::Fatal(e) => NextRecord::Fatal(e),
        Frame::Ready(n) => NextRecord::Ready { offset: w.offset, size: n },
    }
}

impl ServiceLoop {
    pub fn new() -> (r: Self)
        ensures
            r@ == (LoopView {
                phase: LoopPhase::Running,
                last_irq_fence: 0,
                device_lost_reported: false,
                batch_bytes: 0,
            }),
    {
        ServiceLoop {
            phase: LoopPhase::Running,
            last_irq_fence: 0,
            device_lost_reported: false,
            batch_bytes: 0,
        }
    }

    pub fn phase(&self) -> (r: LoopPhase)
        ensures
            r == self@.phase,
    {
        self.phase
    }

    pub fn last_irq_fence(&self) -> (r: u64)
        ensures
            r == self@.last_irq_fence,
    {
        self.last_irq_fence
    }

    /// Top of an iteration. A shutdown request or a closed window stops the
    /// loop. A lost device is reported once, with the DEVICE_LOST and ERROR
    /// bits and the DEVICE_LOST error code, and the loop goes on degraded.
    pub fn begin_iteration(
        &mut self,
        control: &mut ControlRegion,
        shutdown_requested: bool,
        device_ok: bool,
        window_open: bool,
    ) -> (r: IterationStart)
        requires
            in_step(old(self)@, *old(control)),
        ensures
            host_step(old(control)@, final(control)@),
            in_step(final(self)@, *final(control)),
            final(self)@.last_irq_fence == old(self)@.last_irq_fence,
            final(self)@.batch_bytes == 0,
            shutdown_requested ==> r == IterationStart::Stop && final(self)@.phase
                == LoopPhase::Shutdown && *final(control) == *old(control),
            !shutdown_requested ==> {
                let report = !device_ok && !old(self)@.device_lost_reported;
                &&& report ==> final(control)@.status == (old(control)@.status
                    | PVGPU_STATUS_DEVICE_LOST) | PVGPU_STATUS_ERROR
                    && final(control)@.error_code == PVGPU_ERROR_DEVICE_LOST
                    && final(control)@.error_data == 0 && final(control)@.same_counters(
                    old(control)@,
                ) && final(self)@.device_lost_reported
                &&& !report ==> *final(control) == *old(control)
                    && final(self)@.device_lost_reported == old(self)@.device_lost_reported
                &&& r == if window_open {
                    IterationStart::Continue
                } else {
                    IterationStart::Stop
                }
                &&& final(self)@.phase == if !window_open {
                    LoopPhase::Shutdown
                } else if report {
                    LoopPhase::Degraded
                } else {
                    old(self)@.phase
                }
            },
    {
        self.batch_bytes = 0;
        if shutdown_requested {
            self.phase = LoopPhase::Shutdown;
            return IterationStart::Stop;
        }
        if !device_ok && !self.device_lost_reported {
            self.device_lost_reported = true;
            control.set_status_flag(PVGPU_STATUS_DEVICE_LOST);
            control.set_error(PVGPU_ERROR_DEVICE_LOST, 0);
            self.phase = LoopPhase::Degraded;
        }
        if !window_open {
            self.phase = LoopPhase::Shutdown;
            return IterationStart::Stop;
        }
        IterationStart::Continue
    }

    /// After a record of `consumed` bytes went through with the engine's fence
    /// at `fence`: the consumer moves past the record, a fence beyond the last
    /// one signalled is published and asks for one interrupt, and the batch
    /// stops once it passes the drain limit.
    pub fn after_command(&mut self, control: &mut ControlRegion, consumed: u64, fence: u64) -> (r:
        DrainStep)
        requires
            in_step(old(self)@, *old(control)),
            consumed <= old(control)@.producer - old(control)@.consumer,
        ensures
            host_step(old(control)@, final(control)@),
            in_step(final(self)@, *final(control)),
            final(control)@.consumer == old(control)@.consumer + consumed,
            final(control)@.producer == old(control)@.producer,
            final(control)@.host_fence >= old(control)@.host_fence,
            final(control)@.host_fence >= fence,
            final(control)@.status == old(control)@.status,
            final(control)@.error_code == old(control)@.error_code,
            final(control)@.error_data == old(control)@.error_data,
            final(control)@.same_guest_fields(old(control)@),
            r.send_irq == (fence > old(self)@.last_irq_fence),
            final(control)@.host_fence == if fence > old(control)@.host_fence {
                fence
            } else {
                old(control)@.host_fence
            },
            final(self)@.last_irq_fence == if r.send_irq {
                fence
            } else {
                old(self)@.last_irq_fence
            },
            final(self)@.batch_bytes == if old(self)@.batch_bytes as int + consumed as int
                <= u64::MAX {
                (old(self)@.batch_bytes + consumed) as u64
            } else {
                u64::MAX
            },
            r.keep_draining == (final(self)@.batch_bytes < DRAIN_BATCH_LIMIT),
            final(self)@.phase == old(self)@.phase,
            final(self)@.device_lost_reported == old(self)@.device_lost_reported,
    {
        control.advance_consumer(consumed);
        self.batch_bytes = if self.batch_bytes <= u64::MAX - consumed {
            self.batch_bytes + consumed
        } else {
            u64::MAX
        };
        let send_irq = fence > self.last_irq_fence;
        if send_irq {
            control.complete_fence(fence);
            self.last_irq_fence = fence;
        }
        DrainStep { send_irq, keep_draining: self.batch_bytes < DRAIN_BATCH_LIMIT }
    }

    /// After a record of `size` bytes failed with `err`: the error is
    /// published. A broken stream ends the session; out-of-memory and internal
    /// failures stop the drain with the record left in the ring; any other
    /// failure consumes the record and the drain goes on.
    pub fn on_replay_error(&mut self, control: &mut ControlRegion, err: ReplayError, size: u64) -> (r:
        ErrorAction)
        requires
            in_step(old(self)@, *old(control)),
            size <= old(control)@.producer - old(control)@.consumer,
        ensures
            host_step(old(control)@, final(control)@),
            in_step(final(self)@, *final(control)),
            final(control)@.error_code == err.spec_code(),
            final(control)@.error_data == err.spec_data(),
            final(control)@.status == old(control)@.status | PVGPU_STATUS_ERROR,
            final(control)@.producer == old(control)@.producer,
            final(control)@.host_fence == old(control)@.host_fence,
            final(control)@.same_guest_fields(old(control)@),
            final(self)@.last_irq_fence == old(self)@.last_irq_fence,
            err.spec_is_fatal() ==> r == ErrorAction::Terminate && final(self)@.phase
                == LoopPhase::Shutdown && final(control)@.consumer == old(control)@.consumer,
            !err.spec_is_fatal() && err.spec_retries() ==> r == ErrorAction::StopDrain
                && final(control)@.consumer == old(control)@.consumer && final(self)@.phase
                == old(self)@.phase,
            !err.spec_is_fatal() && !err.spec_retries() ==> r == ErrorAction::Continue
                && final(control)@.consumer == old(control)@.consumer + size && final(self)@.phase
                == old(self)@.phase,
    {
        control.set_error(err.code(), err.data());
        if err.is_fatal() {
            self.phase = LoopPhase::Shutdown;
            ErrorAction::Terminate
        } else if err.retries() {
            ErrorAction::StopDrain
        } else {
            control.advance_consumer(size);
            ErrorAction::Continue
        }
    }

    /// A framing failure at the head of the ring ends the session.
    pub fn on_framing_error(&mut self, control: &mut ControlRegion, err: FramingError)
        requires
            in_step(old(self)@, *old(control)),
        ensures
            host_step(old(control)@, final(control)@),
            in_step(final(self)@, *final(control)),
            final(self)@.phase == LoopPhase::Shutdown,
            final(self)@.last_irq_fence == old(self)@.last_irq_fence,
            final(control)@.error_code == ReplayError::Framing(err).spec_code(),
            final(control)@.error_data == 0,
            final(control)@.status == old(control)@.status | PVGPU_STATUS_ERROR,
            final(control)@.same_counters(old(control)@),
    {
        let e = ReplayError::Framing(err);
        control.set_error(e.code(), 0);
        self.phase = LoopPhase::Shutdown;
    }

    /// Publishes the outcome of presenting backbuffer `backbuffer_id`.
    pub fn on_present(
        &mut self,
        control: &mut ControlRegion,
        backbuffer_id: u32,
        outcome: PresentOutcome,
    )
        requires
            in_step(old(self)@, *old(control)),
        ensures
            host_step(old(control)@, final(control)@),
            in_step(final(self)@, *final(control)),
            final(self)@ == old(self)@,
            outcome == PresentOutcome::Presented ==> *final(control) == *old(control),
            outcome == PresentOutcome::NotFound ==> final(control)@.error_code
                == PVGPU_ERROR_RESOURCE_NOT_FOUND && final(control)@.error_data == backbuffer_id
                && final(control)@.status == old(control)@.status | PVGPU_STATUS_ERROR
                && final(control)@.same_counters(old(control)@),
            outcome == PresentOutcome::Failed ==> final(control)@.error_code
                == PVGPU_ERROR_DEVICE_LOST && final(control)@.error_data == backbuffer_id
                && final(control)@.status == old(control)@.status | PVGPU_STATUS_ERROR
                && final(control)@.same_counters(old(control)@),
    {
        match outcome {
            PresentOutcome::Presented => {},
            PresentOutcome::NotFound => {
                control.set_error(PVGPU_ERROR_RESOURCE_NOT_FOUND, backbuffer_id);
            },
            PresentOutcome::Failed => {
                control.set_error(PVGPU_ERROR_DEVICE_LOST, backbuffer_id);
            },
        }
    }

    /// Sets the RESIZING bit while the presentation surface is resized.
    pub fn begin_resize(&mut self, control: &mut ControlRegion)
        requires
            in_step(old(self)@, *old(control)),
        ensures
            host_step(old(control)@, final(control)@),
            in_step(final(self)@, *final(control)),
            final(self)@ == old(self)@,
            final(control)@.status == old(control)@.status | PVGPU_STATUS_RESIZING,
            final(control)@.same_but_status(old(control)@),
    {
        control.set_status_flag(PVGPU_STATUS_RESIZING);
    }

    /// Clears the RESIZING bit; a failed resize to `width` x `height` is
    /// published as an internal error whose datum packs the low 16 bits of each.
    pub fn end_resize(&mut self, control: &mut ControlRegion, resized: bool, width: u32, height: u32)
        requires
            in_step(old(self)@, *old(control)),
        ensures
            host_step(old(control)@, final(control)@),
            in_step(final(self)@, *final(control)),
            final(self)@ == old(self)@,
            resized ==> final(control)@.status == old(control)@.status & !PVGPU_STATUS_RESIZING
                && final(control)@.same_but_status(old(control)@),
            !resized ==> final(control)@.status == (old(control)@.status | PVGPU_STATUS_ERROR)
                & !PVGPU_STATUS_RESIZING && final(control)@.error_code == PVGPU_ERROR_INTERNAL
                && final(control)@.error_data == (width & 0xFFFF) | ((height & 0xFFFF) << 16u32)
                && final(control)@.same_counters(old(control)@),
    {
        if !resized {
            control.set_error(PVGPU_ERROR_INTERNAL, (width & 0xFFFF) | ((height & 0xFFFF) << 16u32));
        }
        control.clear_status_flag(PVGPU_STATUS_RESIZING);
    }
}

/// The loop reloops at once after doing work, and otherwise waits on the
/// doorbell for this many milliseconds.
pub fn idle_wait_ms(did_work: bool) -> (r: u32)
    ensures
        r == if did_work {
            0
        } else {
            DOORBELL_WAIT_MS
        },
{
    if did_work {
        0
    } else {
        DOORBELL_WAIT_MS
    }
}

} // verus!
