use std::collections::HashMap;

use pvgpu::control::ControlRegion;
use pvgpu::ops::{HeapRange, NativeOp, ReplayError, ReplayWarning, E_OUTOFMEMORY};
use pvgpu::processor::CommandProcessor;
use pvgpu::protocol::{
    CmdCreateResource, CmdCreateShader, CmdFence, CmdMapResource, CmdOpenResource, CmdPresent,
    CmdResizeBuffers, CmdUnmapResource, CmdUpdateResource, CommandHeader, ShaderStage,
    PVGPU_CMD_CLEAR_RENDER_TARGET, PVGPU_CMD_CREATE_RESOURCE, PVGPU_CMD_CREATE_SHADER,
    PVGPU_CMD_DESTROY_RESOURCE, PVGPU_CMD_FENCE, PVGPU_CMD_FLUSH, PVGPU_CMD_MAP_RESOURCE,
    PVGPU_CMD_OPEN_RESOURCE, PVGPU_CMD_PRESENT, PVGPU_CMD_RESIZE_BUFFERS,
    PVGPU_CMD_SET_RENDER_TARGET, PVGPU_CMD_UNMAP_RESOURCE, PVGPU_CMD_UPDATE_RESOURCE,
    PVGPU_ERROR_DEVICE_LOST, PVGPU_FEATURES_MVP, PVGPU_STATUS_DEVICE_LOST, PVGPU_STATUS_ERROR,
    PVGPU_STATUS_RESIZING, PVGPU_VERSION,
};
use pvgpu::presentation::PresentationConfig;
use pvgpu::resources::ResourceKind;
use pvgpu::ring::FramingError;
use pvgpu::service::{IterationStart, LoopPhase, NextRecord, ServiceLoop, next_record};

fn hdr(command_type: u32, command_size: u32, resource_id: u32) -> CommandHeader {
    CommandHeader { command_type, command_size, resource_id, flags: 0 }
}

fn words(ws: &[u32]) -> Vec<u8> {
    ws.iter().flat_map(|w| w.to_le_bytes()).collect()
}

fn create(id: u32, resource_type: u32, width: u32, height: u32, format: u32, bind: u32) -> Vec<u8> {
    create_with_data(id, resource_type, width, height, format, bind, 0, 0)
}

#[allow(clippy::too_many_arguments)]
fn create_with_data(
    id: u32,
    resource_type: u32,
    width: u32,
    height: u32,
    format: u32,
    bind: u32,
    heap_offset: u32,
    data_size: u32,
) -> Vec<u8> {
    CmdCreateResource {
        header: hdr(PVGPU_CMD_CREATE_RESOURCE, 64, id),
        resource_type,
        format,
        width,
        height,
        depth: 1,
        mip_levels: 1,
        sample_count: 1,
        sample_quality: 0,
        bind_flags: bind,
        misc_flags: 0,
        heap_offset,
        data_size,
    }
    .encode()
}

fn set_render_target(rtvs: &[u32], dsv: u32) -> Vec<u8> {
    let mut ws = vec![PVGPU_CMD_SET_RENDER_TARGET, 56, 0, 0, rtvs.len() as u32, dsv];
    let mut ids = [0u32; 8];
    ids[..rtvs.len()].copy_from_slice(rtvs);
    ws.extend_from_slice(&ids);
    words(&ws)
}

fn clear_render_target(id: u32, color: [f32; 4]) -> Vec<u8> {
    let mut ws = vec![PVGPU_CMD_CLEAR_RENDER_TARGET, 36, 0, 0, id];
    ws.extend(color.iter().map(|c| c.to_bits()));
    words(&ws)
}

fn present(backbuffer_id: u32, sync_interval: u32) -> Vec<u8> {
    CmdPresent { header: hdr(PVGPU_CMD_PRESENT, 32, 0), backbuffer_id, sync_interval, flags: 0 }.encode()
}

fn fence(value: u64) -> Vec<u8> {
    CmdFence { header: hdr(PVGPU_CMD_FENCE, 24, 0), fence_value: value }.encode()
}

fn destroy(id: u32) -> Vec<u8> {
    hdr(PVGPU_CMD_DESTROY_RESOURCE, 16, id).encode()
}

fn open(new_id: u32, src: u32, resource_type: u32) -> Vec<u8> {
    CmdOpenResource {
        header: hdr(PVGPU_CMD_OPEN_RESOURCE, 44, new_id),
        shared_handle: src,
        resource_type,
        format: 0,
        width: 0,
        height: 0,
        bind_flags: 0,
        misc_flags: 0,
    }
    .encode()
}

/// A stand-in for the native device that keeps buffers as bytes.
#[derive(Default)]
struct FakeDevice {
    objects: HashMap<u64, Vec<u8>>,
    mapped: HashMap<u64, Vec<u8>>,
    flushes: usize,
    clears: usize,
    released: Vec<u64>,
}

impl FakeDevice {
    fn run(&mut self, ops: &[NativeOp], heap: &mut [u8]) {
        for op in ops {
            match op {
                NativeOp::CreateTexture2D { native, width, height, .. } => {
                    self.objects.insert(*native, vec![0; (*width * *height * 4) as usize]);
                }
                NativeOp::CreateBuffer { native, size, initial, .. } => {
                    let mut b = vec![0; *size as usize];
                    if let Some(r) = initial {
                        let (o, l) = (r.offset as usize, r.len as usize);
                        b[..l].copy_from_slice(&heap[o..o + l]);
                    }
                    self.objects.insert(*native, b);
                }
                NativeOp::UpdateSubresource { native, data, .. } => {
                    let (o, l) = (data.offset as usize, data.len as usize);
                    let src = heap[o..o + l].to_vec();
                    self.objects.get_mut(native).unwrap()[..l].copy_from_slice(&src);
                }
                NativeOp::MapStaging { source, staging, read_into, .. } => {
                    let copy = self.objects[source].clone();
                    if let Some(off) = read_into {
                        let o = *off as usize;
                        let l = copy.len().min(heap.len() - o);
                        heap[o..o + l].copy_from_slice(&copy[..l]);
                    }
                    self.mapped.insert(*staging, copy);
                }
                NativeOp::UnmapStaging { staging, write_back, copy_to, .. } => {
                    let mut m = self.mapped.remove(staging).unwrap();
                    if let Some(r) = write_back {
                        let (o, l) = (r.offset as usize, r.len as usize);
                        m[..l].copy_from_slice(&heap[o..o + l]);
                    }
                    if let Some(dst) = copy_to {
                        self.objects.insert(*dst, m);
                    }
                }
                NativeOp::ClearRenderTarget { .. } => self.clears += 1,
                NativeOp::Flush => self.flushes += 1,
                NativeOp::Release { native } => {
                    self.objects.remove(native);
                    self.released.push(*native);
                }
                _ => {}
            }
        }
    }
}

/// Drains a ring that holds `stream`, the way the service loop does.
fn drain(
    stream: &[u8],
    processor: &mut CommandProcessor,
    device: &mut FakeDevice,
    heap: &mut [u8],
) -> (ControlRegion, ServiceLoop, usize, Vec<(u32, u32)>) {
    let mut ring = stream.to_vec();
    ring.resize(0x1000, 0);
    let mut control = ControlRegion::new(PVGPU_VERSION, PVGPU_FEATURES_MVP, 0x1000, 0x1000, 0x2000, 0x1000);
    assert!(control.observe_producer(stream.len() as u64));
    let mut svc = ServiceLoop::new();
    assert_eq!(svc.begin_iteration(&mut control, false, true, true), IterationStart::Continue);
    let mut irqs = 0;
    let mut presents = Vec::new();
    loop {
        match next_record(&control, &ring) {
            NextRecord::Ready { offset, size } => {
                let rep = processor.process_command(&ring[offset..offset + size], heap).unwrap();
                device.run(&rep.ops, heap);
                let step = svc.after_command(&mut control, rep.consumed as u64, processor.current_fence());
                if step.send_irq {
                    irqs += 1;
                }
                if let Some(p) = processor.take_pending_present() {
                    presents.push(p);
                }
            }
            NextRecord::Empty => break,
            other => panic!("unexpected {:?}", other),
        }
    }
    (control, svc, irqs, presents)
}

#[test]
fn clear_and_present_scenario() {
    let mut stream = create(1, 2, 1920, 1080, 87, 0x20);
    stream.extend(set_render_target(&[1], 0));
    stream.extend(clear_render_target(1, [0.0, 1.0, 0.0, 1.0]));
    stream.extend(present(1, 1));
    stream.extend(fence(42));
    let mut p = CommandProcessor::new();
    let mut dev = FakeDevice::default();
    let mut heap = vec![0u8; 256];
    let (control, _svc, irqs, presents) = drain(&stream, &mut p, &mut dev, &mut heap);
    let tex = p.get_texture(1).unwrap();
    assert_eq!(tex.kind, ResourceKind::Texture2D);
    assert!(tex.has_rtv);
    assert_eq!((tex.width, tex.height), (1920, 1080));
    assert_eq!(presents, vec![(1, 1)]);
    assert_eq!(dev.clears, 1);
    assert_eq!(control.host_fence_completed(), 42);
    assert_eq!(control.consumer_ptr(), stream.len() as u64);
    assert_eq!(irqs, 1);
    assert_eq!(p.stats().presents, 1);
    assert_eq!(p.stats().commands_processed, 5);
}

#[test]
fn alias_scenario() {
    let mut stream = create(10, 4, 1024, 0, 0, 0);
    stream.extend(open(11, 10, 4));
    let mut p = CommandProcessor::new();
    let mut dev = FakeDevice::default();
    let mut heap = vec![0u8; 16];
    drain(&stream, &mut p, &mut dev, &mut heap);
    let a = p.get_buffer(10).unwrap();
    let b = p.get_buffer(11).unwrap();
    assert_eq!(a.native, b.native);
    let rep = p.process_command(&destroy(10), &heap).unwrap();
    assert!(rep.ops.is_empty());
    assert!(p.get_resource(10).is_none());
    assert_eq!(p.get_buffer(11).unwrap().native, a.native);
    let rep = p.process_command(&destroy(11), &heap).unwrap();
    assert_eq!(rep.ops, vec![NativeOp::Release { native: a.native }]);
    assert_eq!(p.resource_count(), 0);
}

#[test]
fn map_write_round_trip_scenario() {
    let pattern: Vec<u8> = (0..64u8).map(|i| i.wrapping_mul(7).wrapping_add(3)).collect();
    let (h, h2) = (64usize, 192usize);
    let mut heap = vec![0u8; 512];
    heap[h..h + 64].copy_from_slice(&pattern);
    let mut stream = create(5, 4, 64, 0, 0, 0);
    stream.extend(
        CmdUpdateResource {
            header: hdr(PVGPU_CMD_UPDATE_RESOURCE, 64, 0),
            resource_id: 5,
            subresource: 0,
            heap_offset: h as u32,
            data_size: 64,
            dst_x: 0,
            dst_y: 0,
            dst_z: 0,
            width: 0,
            height: 0,
            depth: 0,
            row_pitch: 0,
            depth_pitch: 0,
        }
        .encode(),
    );
    stream.extend(
        CmdMapResource {
            header: hdr(PVGPU_CMD_MAP_RESOURCE, 48, 0),
            resource_id: 5,
            subresource: 0,
            map_type: 1,
            map_flags: 0,
            heap_offset: h2 as u32,
        }
        .encode(),
    );
    stream.extend(
        CmdUnmapResource {
            header: hdr(PVGPU_CMD_UNMAP_RESOURCE, 32, 0),
            resource_id: 5,
            subresource: 0,
            heap_offset: h2 as u32,
            data_size: 64,
        }
        .encode(),
    );
    let mut p = CommandProcessor::new();
    let mut dev = FakeDevice::default();
    drain(&stream, &mut p, &mut dev, &mut heap);
    assert_eq!(&heap[h2..h2 + 64], &pattern[..]);
    let native = p.get_buffer(5).unwrap().native;
    assert_eq!(dev.objects[&native], pattern);
}

#[test]
fn resize_scenario() {
    let mut p = CommandProcessor::new();
    let rec = CmdResizeBuffers {
        header: hdr(PVGPU_CMD_RESIZE_BUFFERS, 48, 0),
        swapchain_id: 0,
        width: 1280,
        height: 720,
        format: 0,
        buffer_count: 0,
        flags: 0,
    }
    .encode();
    let rep = p.process_command(&rec, &[]).unwrap();
    assert_eq!(rep.ops, vec![NativeOp::Flush]);
    let (w, h) = p.take_pending_resize().unwrap();
    assert!(!p.has_pending_resize());
    let mut control = ControlRegion::new(PVGPU_VERSION, 0, 0, 0x1000, 0, 0);
    let mut svc = ServiceLoop::new();
    svc.begin_resize(&mut control);
    assert_ne!(control.get_status() & PVGPU_STATUS_RESIZING, 0);
    let mut cfg = PresentationConfig::default();
    assert!(cfg.resize(w, h));
    svc.end_resize(&mut control, true, w, h);
    assert_eq!(control.get_status() & PVGPU_STATUS_RESIZING, 0);
    assert_eq!(cfg.dimensions(), (1280, 720));
    assert!(!cfg.resize(1280, 720));
    assert_eq!(cfg.dimensions(), (1280, 720));
}

#[test]
fn device_lost_scenario() {
    let mut control = ControlRegion::new(PVGPU_VERSION, 0, 0, 0x1000, 0, 0);
    let mut svc = ServiceLoop::new();
    assert_eq!(svc.begin_iteration(&mut control, false, false, true), IterationStart::Continue);
    assert_eq!(svc.phase(), LoopPhase::Degraded);
    assert_ne!(control.get_status() & PVGPU_STATUS_DEVICE_LOST, 0);
    assert_ne!(control.get_status() & PVGPU_STATUS_ERROR, 0);
    assert_eq!(control.get_error_code(), PVGPU_ERROR_DEVICE_LOST);
    control.clear_error();
    assert_eq!(svc.begin_iteration(&mut control, false, false, true), IterationStart::Continue);
    assert_eq!(control.get_error_code(), 0);
    assert_eq!(svc.begin_iteration(&mut control, true, false, true), IterationStart::Stop);
}

#[test]
fn create_validates_texture_dimensions() {
    let mut p = CommandProcessor::new();
    for (w, h) in [(0, 1080), (1920, 0), (16385, 16), (16, 16385)] {
        assert_eq!(p.process_command(&create(3, 2, w, h, 87, 0), &[]), Err(ReplayError::InvalidParameter(3)));
    }
    assert!(p.process_command(&create(3, 2, 16384, 16384, 87, 0), &[]).is_ok());
    assert_eq!(p.stats().errors, 4);
}

#[test]
fn create_validates_buffer_size() {
    let mut p = CommandProcessor::new();
    assert_eq!(p.process_command(&create(4, 4, 0, 0, 0, 0), &[]), Err(ReplayError::InvalidParameter(4)));
    assert_eq!(
        p.process_command(&create(4, 4, (1 << 30) + 1, 0, 0, 0), &[]),
        Err(ReplayError::InvalidParameter(4))
    );
    let rep = p.process_command(&create(4, 4, 1 << 30, 0, 0, 0), &[]).unwrap();
    assert!(matches!(rep.ops[0], NativeOp::CreateBuffer { size: 0x4000_0000, .. }));
}

#[test]
fn shader_without_bytecode_fails_to_compile() {
    let mut p = CommandProcessor::new();
    assert_eq!(p.process_command(&create(6, 5, 0, 0, 0, 0), &[]), Err(ReplayError::ShaderCompile(6)));
    let rec = CmdCreateShader {
        header: hdr(PVGPU_CMD_CREATE_SHADER, 32, 0),
        shader_id: 8,
        shader_type: 1,
        bytecode_size: 0,
        bytecode_offset: 16,
    }
    .encode();
    assert_eq!(p.process_command(&rec, &[0u8; 64]), Err(ReplayError::ShaderCompile(8)));
    let rec = CmdCreateShader {
        header: hdr(PVGPU_CMD_CREATE_SHADER, 32, 0),
        shader_id: 8,
        shader_type: 1,
        bytecode_size: 32,
        bytecode_offset: 16,
    }
    .encode();
    let rep = p.process_command(&rec, &[0u8; 64]).unwrap();
    assert_eq!(
        rep.ops,
        vec![NativeOp::CreateShader { native: 1, stage: ShaderStage::Pixel, bytecode: HeapRange { offset: 16, len: 32 } }]
    );
    assert_eq!(p.get_resource(8).unwrap().kind, ResourceKind::PixelShader);
}

#[test]
fn create_rejects_live_id_heap_overrun_and_wide_formats() {
    let mut p = CommandProcessor::new();
    assert!(p.process_command(&create(1, 4, 64, 0, 0, 0), &[]).is_ok());
    assert_eq!(p.process_command(&create(1, 4, 64, 0, 0, 0), &[]), Err(ReplayError::InvalidParameter(1)));
    assert_eq!(p.process_command(&create(0, 4, 64, 0, 0, 0), &[]), Err(ReplayError::InvalidParameter(0)));
    let heap = [0u8; 128];
    assert_eq!(
        p.process_command(&create_with_data(2, 4, 64, 0, 0, 0, 100, 64), &heap),
        Err(ReplayError::HeapOutOfBounds)
    );
    assert_eq!(
        p.process_command(&create_with_data(2, 2, 4, 4, 10, 0, 16, 64), &heap),
        Err(ReplayError::UnsupportedFormat(2))
    );
    let rep = p.process_command(&create_with_data(2, 2, 4, 4, 28, 0, 16, 64), &heap).unwrap();
    assert!(matches!(rep.ops[0], NativeOp::CreateTexture2D { row_pitch: 16, .. }));
}

#[test]
fn unknown_opcode_is_consumed_with_a_warning() {
    let mut p = CommandProcessor::new();
    let mut rec = hdr(0x0777, 24, 0).encode();
    rec.extend([0u8; 8]);
    let rep = p.process_command(&rec, &[]).unwrap();
    assert_eq!(rep.consumed, 24);
    assert!(rep.ops.is_empty());
    assert_eq!(rep.warning, Some(ReplayWarning::UnknownOpcode(0x0777)));
}

#[test]
fn flush_twice_flushes_twice_and_changes_nothing_else() {
    let mut p = CommandProcessor::new();
    let rec = hdr(PVGPU_CMD_FLUSH, 16, 0).encode();
    let a = p.process_command(&rec, &[]).unwrap();
    let b = p.process_command(&rec, &[]).unwrap();
    assert_eq!(a.ops, vec![NativeOp::Flush]);
    assert_eq!(a, b);
    assert_eq!(p.current_fence(), 0);
    assert!(!p.has_pending_present());
}

#[test]
fn framing_errors_of_the_engine() {
    let mut p = CommandProcessor::new();
    assert_eq!(p.process_command(&[0u8; 8], &[]), Err(ReplayError::Framing(FramingError::RecordTooSmall)));
    assert_eq!(
        p.process_command(&hdr(PVGPU_CMD_FLUSH, 8, 0).encode(), &[]),
        Err(ReplayError::Framing(FramingError::RecordTooSmall))
    );
    assert_eq!(
        p.process_command(&hdr(PVGPU_CMD_FLUSH, 32, 0).encode(), &[]),
        Err(ReplayError::Framing(FramingError::Truncated))
    );
    let mut short_fence = hdr(PVGPU_CMD_FENCE, 20, 0).encode();
    short_fence.extend([0u8; 4]);
    assert_eq!(p.process_command(&short_fence, &[]), Err(ReplayError::InvalidCommand));
}

#[test]
fn map_of_missing_resource_and_native_failures() {
    let mut p = CommandProcessor::new();
    let map = CmdMapResource {
        header: hdr(PVGPU_CMD_MAP_RESOURCE, 48, 0),
        resource_id: 9,
        subresource: 0,
        map_type: 1,
        map_flags: 0,
        heap_offset: 0,
    }
    .encode();
    assert_eq!(p.process_command(&map, &[0u8; 64]), Err(ReplayError::ResourceNotFound(9)));
    assert!(p.process_command(&create(9, 2, 8, 8, 87, 0), &[]).is_ok());
    assert_eq!(p.native_failed(E_OUTOFMEMORY), ReplayError::OutOfMemory);
    assert!(p.get_resource(9).is_none());
    assert!(p.process_command(&create(9, 2, 8, 8, 87, 0), &[]).is_ok());
    assert_eq!(p.native_failed(0x8007_0057), ReplayError::Internal);
    let heap = [0u8; 64];
    assert!(p.process_command(&create_with_data(12, 7, 0, 0, 0, 0, 8, 16), &heap).is_ok());
    assert_eq!(p.native_failed(0x8007_0057), ReplayError::ShaderCompile(12));
    assert!(p.get_resource(12).is_none());
}

#[test]
fn error_codes_published_to_the_guest() {
    assert_eq!((ReplayError::ShaderCompile(7).code(), ReplayError::ShaderCompile(7).data()), (4, 7));
    assert_eq!(ReplayError::OutOfMemory.code(), 3);
    assert_eq!(ReplayError::InvalidParameter(2).code(), 6);
    assert_eq!(ReplayError::ResourceNotFound(2).code(), 2);
    assert_eq!(ReplayError::UnsupportedFormat(2).code(), 7);
    assert_eq!(ReplayError::Internal.code(), 12);
    assert_eq!(ReplayError::InvalidCommand.code(), 1);
    assert!(ReplayError::HeapOutOfBounds.is_fatal());
    assert!(ReplayError::OutOfMemory.retries());
    assert!(!ReplayError::InvalidParameter(1).retries());
    assert!(!ReplayError::Internal.retries());
}

fn update(id: u32, subresource: u32, heap_offset: u32, data_size: u32, region: [u32; 6], row_pitch: u32) -> Vec<u8> {
    CmdUpdateResource {
        header: hdr(PVGPU_CMD_UPDATE_RESOURCE, 64, 0),
        resource_id: id,
        subresource,
        heap_offset,
        data_size,
        dst_x: region[0],
        dst_y: region[1],
        dst_z: region[2],
        width: region[3],
        height: region[4],
        depth: region[5],
        row_pitch,
        depth_pitch: 0,
    }
    .encode()
}

#[test]
fn initial_data_at_heap_offset_zero_is_checked() {
    let mut p = CommandProcessor::new();
    assert_eq!(p.process_command(&create_with_data(2, 4, 64, 0, 0, 0, 0, 64), &[]), Err(ReplayError::HeapOutOfBounds));
    assert!(p.get_resource(2).is_none());
    let heap = [0u8; 64];
    let rep = p.process_command(&create_with_data(2, 4, 64, 0, 0, 0, 0, 64), &heap).unwrap();
    assert!(matches!(rep.ops[0], NativeOp::CreateBuffer { initial: Some(HeapRange { offset: 0, len: 64 }), .. }));
    let rep = p.process_command(&create_with_data(3, 5, 0, 0, 0, 0, 0, 32), &heap).unwrap();
    assert!(matches!(rep.ops[0], NativeOp::CreateShader { stage: ShaderStage::Vertex, .. }));
}

#[test]
fn update_checks_the_region_against_the_resource() {
    let mut p = CommandProcessor::new();
    let heap = [0u8; 4096];
    assert!(p.process_command(&create(5, 4, 64, 0, 0, 0), &heap).is_ok());
    assert!(p.process_command(&create(6, 2, 16, 8, 87, 0), &heap).is_ok());
    // A buffer update without a box must cover the whole buffer.
    assert_eq!(p.process_command(&update(5, 0, 0, 32, [0; 6], 0), &heap), Err(ReplayError::InvalidParameter(5)));
    assert!(p.process_command(&update(5, 0, 0, 64, [0; 6], 0), &heap).is_ok());
    // Boxes stay inside the resource and never wrap.
    assert!(p.process_command(&update(5, 0, 0, 16, [48, 0, 0, 16, 1, 1], 0), &heap).is_ok());
    assert_eq!(p.process_command(&update(5, 0, 0, 32, [48, 0, 0, 32, 1, 1], 0), &heap), Err(ReplayError::InvalidParameter(5)));
    assert_eq!(
        p.process_command(&update(5, 0, 0, 32, [u32::MAX, 0, 0, 2, 1, 1], 0), &heap),
        Err(ReplayError::InvalidParameter(5))
    );
    assert_eq!(p.process_command(&update(5, 1, 0, 64, [0; 6], 0), &heap), Err(ReplayError::InvalidParameter(5)));
    // A 16x8 texture of 4-byte pixels with rows 64 bytes apart needs 7 * 64 + 64 bytes.
    assert_eq!(p.process_command(&update(6, 0, 0, 511, [0; 6], 64), &heap), Err(ReplayError::InvalidParameter(6)));
    assert_eq!(p.process_command(&update(6, 0, 0, 4096, [0; 6], 32), &heap), Err(ReplayError::InvalidParameter(6)));
    let rep = p.process_command(&update(6, 0, 0, 512, [0; 6], 64), &heap).unwrap();
    assert!(matches!(rep.ops[0], NativeOp::UpdateSubresource { dst_box: None, row_pitch: 64, .. }));
    // A 2x2 box at (14, 6): one full row plus 8 bytes.
    let rep = p.process_command(&update(6, 0, 0, 72, [14, 6, 0, 2, 2, 1], 64), &heap).unwrap();
    assert!(matches!(rep.ops[0], NativeOp::UpdateSubresource { dst_box: Some(_), .. }));
}

#[test]
fn unmap_write_back_is_bounded_by_the_mapped_buffer() {
    let mut p = CommandProcessor::new();
    let heap = [0u8; 256];
    assert!(p.process_command(&create(5, 4, 64, 0, 0, 0), &heap).is_ok());
    let map = CmdMapResource {
        header: hdr(PVGPU_CMD_MAP_RESOURCE, 48, 0),
        resource_id: 5,
        subresource: 0,
        map_type: 2,
        map_flags: 0,
        heap_offset: 0,
    }
    .encode();
    let rep = p.process_command(&map, &heap).unwrap();
    assert!(matches!(rep.ops[0], NativeOp::MapStaging { read_into: None, .. }));
    let unmap = |size: u32| {
        CmdUnmapResource {
            header: hdr(PVGPU_CMD_UNMAP_RESOURCE, 32, 0),
            resource_id: 5,
            subresource: 0,
            heap_offset: 0,
            data_size: size,
        }
        .encode()
    };
    assert_eq!(p.process_command(&unmap(128), &heap), Err(ReplayError::InvalidParameter(5)));
    let rep = p.process_command(&unmap(64), &heap).unwrap();
    assert!(matches!(
        rep.ops[0],
        NativeOp::UnmapStaging { write_back: Some(HeapRange { offset: 0, len: 64 }), copy_to: Some(_), .. }
    ));
}

#[test]
fn set_shader_binds_the_decoded_stage() {
    let mut p = CommandProcessor::new();
    let heap = [0u8; 64];
    assert!(p.process_command(&create_with_data(3, 6, 0, 0, 0, 0, 0, 32), &heap).is_ok());
    let native = p.get_resource(3).unwrap().native;
    let rec = words(&[0x0107, 24, 0, 0, 1, 3]);
    let rep = p.process_command(&rec, &heap).unwrap();
    assert_eq!(rep.ops, vec![NativeOp::SetShader { stage: ShaderStage::Pixel, shader: Some(native) }]);
    let rec = words(&[0x0107, 24, 0, 0, 0, 3]);
    let rep = p.process_command(&rec, &heap).unwrap();
    assert!(rep.ops.is_empty());
    assert_eq!(rep.warning, Some(ReplayWarning::ResourceNotFound(3)));
}

fn map(id: u32, map_type: u32, heap_offset: u32) -> Vec<u8> {
    CmdMapResource { header: hdr(PVGPU_CMD_MAP_RESOURCE, 48, 0), resource_id: id, subresource: 0, map_type, map_flags: 0, heap_offset }
        .encode()
}

fn unmap(id: u32, heap_offset: u32, data_size: u32) -> Vec<u8> {
    CmdUnmapResource { header: hdr(PVGPU_CMD_UNMAP_RESOURCE, 32, 0), resource_id: id, subresource: 0, heap_offset, data_size }
        .encode()
}

#[test]
fn texture_write_back_is_bounded_by_the_reported_mapped_size() {
    let mut p = CommandProcessor::new();
    let heap = [0u8; 4096];
    assert!(p.process_command(&create(6, 2, 16, 8, 87, 0), &heap).is_ok());
    let rep = p.process_command(&map(6, 2, 0), &heap).unwrap();
    let staging = match rep.ops[0] {
        NativeOp::MapStaging { staging, .. } => staging,
        ref other => panic!("unexpected {:?}", other),
    };
    // Until the device reports the mapped size, no write-back is accepted.
    assert_eq!(p.process_command(&unmap(6, 0, 16), &heap), Err(ReplayError::InvalidParameter(6)));
    p.report_mapped_size(staging, 512);
    assert_eq!(p.process_command(&unmap(6, 0, 513), &heap), Err(ReplayError::InvalidParameter(6)));
    let rep = p.process_command(&unmap(6, 0, 512), &heap).unwrap();
    assert!(matches!(
        rep.ops[0],
        NativeOp::UnmapStaging { write_back: Some(HeapRange { offset: 0, len: 512 }), copy_to: Some(_), .. }
    ));
}

#[test]
fn unmap_of_a_read_map_writes_nothing_back() {
    let mut p = CommandProcessor::new();
    let heap = [0u8; 256];
    assert!(p.process_command(&create(5, 4, 64, 0, 0, 0), &heap).is_ok());
    let rep = p.process_command(&map(5, 1, 0), &heap).unwrap();
    assert!(matches!(rep.ops[0], NativeOp::MapStaging { read_into: Some(0), .. }));
    let rep = p.process_command(&unmap(5, 0, 64), &heap).unwrap();
    assert!(matches!(rep.ops[0], NativeOp::UnmapStaging { write_back: None, copy_to: None, .. }));
}

#[test]
fn out_of_heap_initial_data_is_fatal_for_every_resource_type() {
    let mut p = CommandProcessor::new();
    assert_eq!(p.process_command(&create_with_data(9, 15, 0, 0, 0, 0, 8, 64), &[0u8; 32]), Err(ReplayError::HeapOutOfBounds));
    let rep = p.process_command(&create_with_data(9, 15, 0, 0, 0, 0, 8, 16), &[0u8; 32]).unwrap();
    assert_eq!(rep.warning, Some(ReplayWarning::UnknownResourceType(15)));
    assert!(p.get_resource(9).is_none());
}

#[test]
fn destroy_shader_and_open_outcomes() {
    let mut p = CommandProcessor::new();
    let heap = [0u8; 64];
    assert!(p.process_command(&create_with_data(3, 6, 0, 0, 0, 0, 0, 32), &heap).is_ok());
    let native = p.get_resource(3).unwrap().native;
    let destroy_shader = words(&[0x0031, 32, 0, 0, 3, 0, 0, 0]);
    let rep = p.process_command(&destroy_shader, &heap).unwrap();
    assert_eq!(rep.ops, vec![NativeOp::Release { native }]);
    assert!(p.get_resource(3).is_none());
    assert!(p.process_command(&create(10, 4, 64, 0, 0, 0), &heap).is_ok());
    assert_eq!(p.process_command(&open(11, 10, 2), &heap).unwrap().warning, Some(ReplayWarning::ResourceNotFound(10)));
    assert_eq!(p.process_command(&open(11, 10, 9), &heap).unwrap().warning, Some(ReplayWarning::UnknownResourceType(9)));
    assert_eq!(p.process_command(&open(10, 10, 4), &heap), Err(ReplayError::InvalidParameter(10)));
    assert!(p.get_resource(11).is_none());
}
