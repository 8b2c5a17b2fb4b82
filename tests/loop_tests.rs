use pvgpu::config::{default_pipe_path, Config};
use pvgpu::control::ControlRegion;
use pvgpu::ops::ReplayError;
use pvgpu::presentation::{present_params, FrameTimes, PresentationConfig, PresentationMode, PRESENT_ALLOW_TEARING};
use pvgpu::protocol::{
    CommandHeader, PVGPU_ERROR_INTERNAL, PVGPU_ERROR_RESOURCE_NOT_FOUND, PVGPU_STATUS_RESIZING,
    PVGPU_VERSION,
};
use pvgpu::ring::{frame_record, pending_window, Frame, FramingError, PendingWindow};
use pvgpu::service::{
    idle_wait_ms, next_record, ErrorAction, NextRecord, PresentOutcome, ServiceLoop,
    DRAIN_BATCH_LIMIT,
};

fn header_bytes(size: u32) -> Vec<u8> {
    CommandHeader { command_type: 0x0303, command_size: size, resource_id: 0, flags: 0 }.encode()
}

#[test]
fn test_presentation_config_default() {
    let config = PresentationConfig::default();
    assert_eq!(config.width, 1920);
    assert_eq!(config.height, 1080);
    assert!(config.vsync);
    assert_eq!(config.mode, PresentationMode::Windowed);
    assert_eq!(config.buffer_count, 2);
    assert!(!config.allow_tearing);
}

#[test]
fn config_defaults_and_presentation_config() {
    let c = Config::default();
    assert_eq!(c.pipe_path, r"\\.\pipe\pvgpu");
    assert_eq!(default_pipe_path(), r"\\.\pipe\pvgpu");
    assert_eq!(c.presentation_mode, "headless");
    assert_eq!((c.width, c.height, c.vsync, c.buffer_count, c.adapter_index), (1920, 1080, true, 2, 0));
    assert!(c.shmem_path.is_none());
    let pc = c.presentation_config();
    assert_eq!(pc.mode, PresentationMode::Headless);
    assert!(!pc.allow_tearing);
    assert_eq!(pc.frame_event_name.as_deref(), Some("Global\\PVGPU_FrameEvent"));
    let mut c2 = c.clone();
    c2.presentation_mode = "dual".to_string();
    c2.vsync = false;
    let pc2 = c2.presentation_config();
    assert_eq!(pc2.mode, PresentationMode::Dual);
    assert!(pc2.allow_tearing);
    assert_eq!(PresentationMode::from_name(&"windowed".to_string()), PresentationMode::Windowed);
    assert_eq!(PresentationMode::from_name(&"bogus".to_string()), PresentationMode::Headless);
}

#[test]
fn sync_interval_selection() {
    assert_eq!(present_params(true, true, true), (1, 0));
    assert_eq!(present_params(true, false, false), (1, 0));
    assert_eq!(present_params(false, true, true), (0, PRESENT_ALLOW_TEARING));
    assert_eq!(present_params(false, true, false), (0, 0));
    assert_eq!(present_params(false, false, true), (0, 0));
}

#[test]
fn tearing_and_window_resize_decisions() {
    let mut c = PresentationConfig::default();
    assert!(!c.set_allow_tearing(true, false));
    assert!(!c.allow_tearing);
    assert!(c.set_allow_tearing(true, true));
    assert!(c.allow_tearing);
    assert!(c.set_vsync(false));
    assert_eq!(c.present_params(true), (0, PRESENT_ALLOW_TEARING));
    assert_eq!(c.window_resize_target(0, 100), None);
    assert_eq!(c.window_resize_target(1920, 1080), None);
    assert_eq!(c.window_resize_target(800, 600), Some((800, 600)));
}

#[test]
fn frame_times_keep_the_last_120() {
    let mut t = FrameTimes::new();
    assert_eq!(t.average_nanos(), 0);
    assert_eq!(t.min_max_nanos(), None);
    assert_eq!(t.last_nanos(), None);
    for i in 0..130u64 {
        t.record(1000 + i);
    }
    assert_eq!(t.frame_count(), 130);
    assert_eq!(t.last_nanos(), Some(1129));
    assert_eq!(t.min_max_nanos(), Some((1010, 1129)));
    assert_eq!(t.average_nanos(), (1010..1130u64).sum::<u64>() / 120);
}

#[test]
fn pending_window_stops_at_the_wrap() {
    let mut c = ControlRegion::new(PVGPU_VERSION, 0, 0, 256, 0, 0);
    assert_eq!(pending_window(&c, 256), None);
    assert!(c.observe_producer(300));
    c.advance_consumer(200);
    assert_eq!(pending_window(&c, 256), Some(PendingWindow { offset: 200, len: 56, pending: 100, to_wrap: 56 }));
    c.advance_consumer(60);
    assert_eq!(pending_window(&c, 256), Some(PendingWindow { offset: 4, len: 40, pending: 40, to_wrap: 252 }));
    assert_eq!(pending_window(&c, 0), None);
}

#[test]
fn framing_boundaries() {
    let h = header_bytes(8);
    assert_eq!(frame_record(&h, 16, 64), Frame::Fatal(FramingError::RecordTooSmall));
    let h = header_bytes(48);
    assert_eq!(frame_record(&h, 16, 64), Frame::Wait);
    let mut w = header_bytes(48);
    w.resize(32, 0);
    assert_eq!(frame_record(&w, 100, 32), Frame::Fatal(FramingError::CrossesWrap));
    assert_eq!(frame_record(&w[..8], 8, 64), Frame::Wait);
    assert_eq!(frame_record(&w[..8], 64, 8), Frame::Fatal(FramingError::CrossesWrap));
    let mut r = header_bytes(32);
    r.resize(40, 0);
    assert_eq!(frame_record(&r, 40, 100), Frame::Ready(32));
}

#[test]
fn next_record_reads_the_head_of_the_ring() {
    let mut ring = vec![0u8; 64];
    ring[..16].copy_from_slice(&header_bytes(16));
    let mut c = ControlRegion::new(PVGPU_VERSION, 0, 0, 64, 0, 0);
    assert_eq!(next_record(&c, &ring), NextRecord::Empty);
    assert!(c.observe_producer(16));
    assert_eq!(next_record(&c, &ring), NextRecord::Ready { offset: 0, size: 16 });
    ring[48..64].copy_from_slice(&header_bytes(32));
    let mut c = ControlRegion::new(PVGPU_VERSION, 0, 0, 64, 0, 0);
    assert!(c.observe_producer(80));
    c.advance_consumer(48);
    assert_eq!(next_record(&c, &ring), NextRecord::Fatal(FramingError::CrossesWrap));
}

#[test]
fn fences_signal_one_irq_per_advance() {
    let mut c = ControlRegion::new(PVGPU_VERSION, 0, 0, 0x1000, 0, 0);
    assert!(c.observe_producer(100));
    let mut s = ServiceLoop::new();
    let a = s.after_command(&mut c, 10, 0);
    assert!(!a.send_irq && a.keep_draining);
    let b = s.after_command(&mut c, 10, 5);
    assert!(b.send_irq);
    assert_eq!(c.host_fence_completed(), 5);
    let d = s.after_command(&mut c, 10, 5);
    assert!(!d.send_irq);
    let e = s.after_command(&mut c, 10, 3);
    assert!(!e.send_irq);
    assert_eq!(c.host_fence_completed(), 5);
    assert_eq!(c.consumer_ptr(), 40);
    assert_eq!(s.last_irq_fence(), 5);
}

#[test]
fn drain_batch_stops_past_the_limit() {
    let mut c = ControlRegion::new(PVGPU_VERSION, 0, 0, 0x1000, 0, 0);
    assert!(c.observe_producer(2 * DRAIN_BATCH_LIMIT));
    let mut s = ServiceLoop::new();
    assert!(s.after_command(&mut c, DRAIN_BATCH_LIMIT - 1, 0).keep_draining);
    assert!(!s.after_command(&mut c, 1, 0).keep_draining);
    assert_eq!(idle_wait_ms(true), 0);
    assert_eq!(idle_wait_ms(false), 5);
}

#[test]
fn replay_errors_are_published_and_classified() {
    let mut c = ControlRegion::new(PVGPU_VERSION, 0, 0, 0x1000, 0, 0);
    assert!(c.observe_producer(100));
    let mut s = ServiceLoop::new();
    assert_eq!(s.on_replay_error(&mut c, ReplayError::InvalidParameter(4), 32), ErrorAction::Continue);
    assert_eq!((c.get_error_code(), c.get_error_data(), c.consumer_ptr()), (6, 4, 32));
    assert_eq!(s.on_replay_error(&mut c, ReplayError::OutOfMemory, 32), ErrorAction::StopDrain);
    assert_eq!((c.get_error_code(), c.consumer_ptr()), (3, 32));
    assert_eq!(s.on_replay_error(&mut c, ReplayError::Internal, 32), ErrorAction::Continue);
    assert_eq!((c.get_error_code(), c.consumer_ptr()), (12, 64));
    assert_eq!(s.on_replay_error(&mut c, ReplayError::HeapOutOfBounds, 32), ErrorAction::Terminate);
    assert!(c.has_error());
}

#[test]
fn present_and_resize_failures_are_published() {
    let mut c = ControlRegion::new(PVGPU_VERSION, 0, 0, 0x1000, 0, 0);
    let mut s = ServiceLoop::new();
    s.on_present(&mut c, 3, PresentOutcome::Presented);
    assert!(!c.has_error());
    s.on_present(&mut c, 3, PresentOutcome::NotFound);
    assert_eq!((c.get_error_code(), c.get_error_data()), (PVGPU_ERROR_RESOURCE_NOT_FOUND, 3));
    s.begin_resize(&mut c);
    s.end_resize(&mut c, false, 0x1_0500, 720);
    assert_eq!(c.get_status() & PVGPU_STATUS_RESIZING, 0);
    assert_eq!(c.get_error_code(), PVGPU_ERROR_INTERNAL);
    assert_eq!(c.get_error_data(), 0x0500 | (720 << 16));
}
