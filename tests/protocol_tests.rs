use pvgpu::control::{
    ControlRegion, CACHE_LINE_SIZE, OFFSET_CONSUMER_PTR, OFFSET_GUEST_FENCE_REQUEST,
    OFFSET_HOST_FENCE_COMPLETED, OFFSET_PRODUCER_PTR,
};
use pvgpu::ipc::{
    decode_qemu_message, encode_backend_message, BackendMessage, ChannelAction, ChannelEvent,
    ChannelSession, IpcError, MessageHeader, QemuMessage,
};
use pvgpu::protocol::{
    align16, CmdClearRenderTarget, CmdSetBlendState, CmdSetRenderTarget, CmdSetShaderResources,
    CmdCreateResource, CmdDrawIndexed, CmdFence, CommandHeader, MapType, ResourceType,
    ShaderStage, PVGPU_CMD_CREATE_RESOURCE, PVGPU_CMD_DRAW_INDEXED, PVGPU_CMD_FENCE,
    PVGPU_FEATURES_MVP, PVGPU_MAGIC, PVGPU_STATUS_DEVICE_LOST, PVGPU_STATUS_ERROR,
    PVGPU_STATUS_READY, PVGPU_VERSION,
};

fn header(command_type: u32, command_size: u32, resource_id: u32) -> CommandHeader {
    CommandHeader { command_type, command_size, resource_id, flags: 0 }
}

#[test]
fn test_control_region_size() {
    assert_eq!(std::mem::size_of::<ControlRegion>(), 4096);
}

#[test]
fn test_command_header_size() {
    assert_eq!(std::mem::size_of::<CommandHeader>(), 16);
}

#[test]
fn hot_counters_sit_in_distinct_cache_lines() {
    let offsets = [
        OFFSET_PRODUCER_PTR,
        OFFSET_CONSUMER_PTR,
        OFFSET_GUEST_FENCE_REQUEST,
        OFFSET_HOST_FENCE_COMPLETED,
    ];
    let lines: Vec<usize> = offsets.iter().map(|o| o / CACHE_LINE_SIZE).collect();
    assert_eq!(lines, vec![0, 1, 2, 3]);
    for o in offsets {
        assert_eq!(o / CACHE_LINE_SIZE, (o + 7) / CACHE_LINE_SIZE);
    }
}

#[test]
fn header_round_trip() {
    let h = CommandHeader { command_type: 0x0301, command_size: 24, resource_id: 7, flags: 3 };
    let bytes = h.encode();
    assert_eq!(bytes, vec![1, 3, 0, 0, 24, 0, 0, 0, 7, 0, 0, 0, 3, 0, 0, 0]);
    assert_eq!(CommandHeader::decode(&bytes), Some(h));
    assert_eq!(CommandHeader::decode(&bytes[..15]), None);
}

#[test]
fn create_resource_round_trip() {
    let c = CmdCreateResource {
        header: header(PVGPU_CMD_CREATE_RESOURCE, 64, 1),
        resource_type: 2,
        format: 87,
        width: 1920,
        height: 1080,
        depth: 1,
        mip_levels: 1,
        sample_count: 1,
        sample_quality: 0,
        bind_flags: 0x20,
        misc_flags: 0,
        heap_offset: 0,
        data_size: 0,
    };
    let bytes = c.encode();
    assert_eq!(bytes.len(), 64);
    assert_eq!(CmdCreateResource::decode(&bytes), Some(c));
    assert_eq!(CmdCreateResource::decode(&bytes[..63]), None);
}

#[test]
fn fence_round_trip_keeps_all_64_bits() {
    let c = CmdFence { header: header(PVGPU_CMD_FENCE, 24, 0), fence_value: 0x1234_5678_9abc_def0 };
    let bytes = c.encode();
    assert_eq!(bytes.len(), 24);
    assert_eq!(&bytes[16..24], &[0xf0, 0xde, 0xbc, 0x9a, 0x78, 0x56, 0x34, 0x12]);
    assert_eq!(CmdFence::decode(&bytes), Some(c));
}

#[test]
fn draw_indexed_round_trip_keeps_negative_base_vertex() {
    let c = CmdDrawIndexed {
        header: header(PVGPU_CMD_DRAW_INDEXED, 32, 0),
        index_count: 36,
        start_index: 6,
        base_vertex: -5,
    };
    let bytes = c.encode();
    assert_eq!(bytes.len(), 32);
    assert_eq!(CmdDrawIndexed::decode(&bytes), Some(c));
}

#[test]
fn wire_codes_of_enums() {
    assert_eq!(ResourceType::from_u32(2), Some(ResourceType::Texture2D));
    assert_eq!(ResourceType::from_u32(19), Some(ResourceType::UnorderedAccessView));
    assert_eq!(ResourceType::from_u32(0), None);
    assert_eq!(ResourceType::Buffer.to_u32(), 4);
    assert_eq!(ShaderStage::from_u32(5), Some(ShaderStage::Compute));
    assert_eq!(ShaderStage::from_u32(6), None);
    assert_eq!(MapType::from_u32(3), Some(MapType::ReadWrite));
    assert!(MapType::ReadWrite.reads());
    assert!(!MapType::WriteDiscard.reads());
}

#[test]
fn align16_rounds_up() {
    assert_eq!(align16(0), 0);
    assert_eq!(align16(1), 16);
    assert_eq!(align16(16), 16);
    assert_eq!(align16(17), 32);
}

#[test]
fn control_region_status_and_error() {
    let mut c = ControlRegion::new(PVGPU_VERSION, PVGPU_FEATURES_MVP, 0x1000, 0x1000, 0x2000, 0x1000);
    assert_eq!(c.validate(), Ok(()));
    c.set_status(PVGPU_STATUS_READY);
    assert!(c.is_ready());
    assert!(!c.has_error());
    c.set_error(5, 9);
    assert!(c.has_error());
    assert_eq!(c.get_error_code(), 5);
    assert_eq!(c.get_error_data(), 9);
    assert_eq!(c.get_status(), PVGPU_STATUS_READY | PVGPU_STATUS_ERROR);
    c.set_status_flag(PVGPU_STATUS_DEVICE_LOST);
    assert!(c.is_device_lost());
    c.clear_status_flag(PVGPU_STATUS_DEVICE_LOST);
    assert!(!c.is_device_lost());
    c.clear_error();
    assert_eq!(c.get_error_code(), 0);
    assert_eq!(c.get_status(), PVGPU_STATUS_READY);
}

#[test]
fn control_region_rejects_bad_magic_and_version() {
    let mut c = ControlRegion::new(PVGPU_VERSION, 0, 0, 0, 0, 0);
    c.version = 2 << 16;
    assert_eq!(c.validate(), Err("Incompatible protocol version"));
    c.magic = 0;
    assert_eq!(c.validate(), Err("Invalid magic number"));
}

#[test]
fn control_region_counters_only_move_forward() {
    let mut c = ControlRegion::new(PVGPU_VERSION, 0, 0, 0, 0, 0);
    assert!(c.observe_producer(100));
    assert!(!c.observe_producer(50));
    assert_eq!(c.producer_ptr(), 100);
    assert!(c.has_pending_commands());
    assert_eq!(c.pending_bytes(), 100);
    c.advance_consumer(40);
    assert_eq!(c.consumer_ptr(), 40);
    assert_eq!(c.pending_bytes(), 60);
    assert!(c.complete_fence(7));
    assert!(!c.complete_fence(3));
    assert_eq!(c.host_fence_completed(), 7);
}

#[test]
fn control_region_decodes_shared_image() {
    let mut image = vec![0u8; 4096];
    image[0..4].copy_from_slice(&PVGPU_MAGIC.to_le_bytes());
    image[4..8].copy_from_slice(&PVGPU_VERSION.to_le_bytes());
    image[0x14..0x18].copy_from_slice(&0x1000u32.to_le_bytes());
    image[0x20..0x28].copy_from_slice(&300u64.to_le_bytes());
    image[0x60..0x68].copy_from_slice(&100u64.to_le_bytes());
    image[0x130..0x134].copy_from_slice(&1280u32.to_le_bytes());
    let c = ControlRegion::decode(&image).unwrap();
    assert_eq!(c.validate(), Ok(()));
    assert_eq!(c.ring_size, 0x1000);
    assert_eq!(c.producer_ptr(), 300);
    assert_eq!(c.consumer_ptr(), 100);
    assert_eq!(c.display_width, 1280);
    image[0x60..0x68].copy_from_slice(&400u64.to_le_bytes());
    assert!(ControlRegion::decode(&image).is_none());
    assert!(ControlRegion::decode(&image[..4095]).is_none());
}

#[test]
fn handshake_scenario() {
    let mut payload = (256u64 * 1024 * 1024).to_le_bytes().to_vec();
    payload.extend_from_slice(b"pvgpu_shm_0\0");
    let mut msg = 1u32.to_le_bytes().to_vec();
    msg.extend_from_slice(&(payload.len() as u32).to_le_bytes());
    let h = MessageHeader::decode(&msg).unwrap();
    assert_eq!(h.msg_type, 1);
    assert_eq!(h.payload_size as usize, payload.len());
    let decoded = decode_qemu_message(h.msg_type, &payload).unwrap();
    assert_eq!(
        decoded,
        QemuMessage::Handshake { shmem_name: "pvgpu_shm_0".to_string(), shmem_size: 256 * 1024 * 1024 }
    );
    let mut session = ChannelSession::new();
    assert_eq!(session.on_event(ChannelEvent::Handshake), ChannelAction::AcceptHandshake);
    let ack = encode_backend_message(&BackendMessage::HandshakeAck { features: PVGPU_FEATURES_MVP });
    let mut expected = vec![2, 0, 0, 0, 8, 0, 0, 0];
    expected.extend_from_slice(&PVGPU_FEATURES_MVP.to_le_bytes());
    assert_eq!(ack, expected);
    let control = ControlRegion::new(PVGPU_VERSION, PVGPU_FEATURES_MVP, 0x1000, 0x1000, 0x2000, 0x1000);
    assert_eq!(control.validate(), Ok(()));
}

#[test]
fn channel_messages_and_session_rules() {
    assert_eq!(decode_qemu_message(3, &[]), Ok(QemuMessage::Doorbell));
    assert_eq!(decode_qemu_message(5, &[]), Ok(QemuMessage::Shutdown));
    assert_eq!(decode_qemu_message(9, &[]), Err(IpcError::UnknownMessageType(9)));
    assert_eq!(decode_qemu_message(1, &[0; 7]), Err(IpcError::HandshakeTooSmall));
    assert_eq!(MessageHeader::decode(&[1, 0, 0]), Err(IpcError::IncompleteHeader));
    let mut payload = 4096u64.to_le_bytes().to_vec();
    payload.extend_from_slice(&[b'a', 0xff, b'b', 0, 0]);
    match decode_qemu_message(1, &payload).unwrap() {
        QemuMessage::Handshake { shmem_name, shmem_size } => {
            assert_eq!(shmem_size, 4096);
            assert_eq!(shmem_name, "a\u{fffd}b");
        }
        other => panic!("unexpected {:?}", other),
    }
    assert_eq!(encode_backend_message(&BackendMessage::Irq { vector: 3 }), vec![4, 0, 0, 0, 4, 0, 0, 0, 3, 0, 0, 0]);
    let mut s = ChannelSession::new();
    assert_eq!(s.on_event(ChannelEvent::Doorbell), ChannelAction::Ignore);
    assert_eq!(s.on_event(ChannelEvent::Handshake), ChannelAction::AcceptHandshake);
    assert_eq!(s.on_event(ChannelEvent::Handshake), ChannelAction::Ignore);
    assert_eq!(s.on_event(ChannelEvent::Doorbell), ChannelAction::SignalDoorbell);
    assert_eq!(s.on_event(ChannelEvent::ReadFailed), ChannelAction::StopSession);
    assert_eq!(s.on_event(ChannelEvent::Doorbell), ChannelAction::Ignore);
}

#[test]
fn records_with_arrays_round_trip() {
    let rt = CmdSetRenderTarget {
        header: header(0x0101, 56, 0),
        num_rtvs: 2,
        dsv_id: 9,
        rtv_ids: [1, 2, 0, 0, 0, 0, 0, 7],
    };
    let bytes = rt.encode();
    assert_eq!(bytes.len(), 56);
    assert_eq!(CmdSetRenderTarget::decode(&bytes), Some(rt));
    let mut view_ids = [0u32; 128];
    view_ids[127] = 55;
    view_ids[3] = 4;
    let srv = CmdSetShaderResources { header: header(0x010E, 540, 0), stage: 1, start_slot: 2, num_views: 128, view_ids };
    assert_eq!(CmdSetShaderResources::decode(&srv.encode()), Some(srv));
    let clear = CmdClearRenderTarget { header: header(0x0206, 36, 0), rtv_id: 1, color: [0.0f32, 1.0, 0.0, 1.0].map(f32::to_bits) };
    let decoded = CmdClearRenderTarget::decode(&clear.encode()).unwrap();
    assert_eq!(decoded.color.map(f32::from_bits), [0.0, 1.0, 0.0, 1.0]);
    let blend = CmdSetBlendState { header: header(0x0104, 40, 0), state_id: 3, blend_factor: [1, 2, 3, 4], sample_mask: 0xffff_ffff };
    assert_eq!(CmdSetBlendState::decode(&blend.encode()), Some(blend));
}
