use capsa::virtio::{
    avail_entry_addr, descriptor_addr, read_plan, used_entry_addr, write_plan, Descriptor,
    DeviceKind, MmioEffect, MmioTransport, VirtioQueueState, DEFAULT_QUEUE_SIZE, FS_TAG_SIZE,
    MAX_DESCRIPTOR_LEN, VIRTIO_F_VERSION_1, VIRTIO_ID_FS, VIRTIO_INT_USED_RING,
    VIRTIO_MMIO_CONFIG, VIRTIO_MMIO_DEVICE_FEATURES, VIRTIO_MMIO_DEVICE_FEATURES_SEL,
    VIRTIO_MMIO_DEVICE_ID, VIRTIO_MMIO_DRIVER_FEATURES, VIRTIO_MMIO_DRIVER_FEATURES_SEL,
    VIRTIO_MMIO_INTERRUPT_ACK, VIRTIO_MMIO_INTERRUPT_STATUS, VIRTIO_MMIO_MAGIC,
    VIRTIO_MMIO_MAGIC_VALUE, VIRTIO_MMIO_QUEUE_DESC_HIGH, VIRTIO_MMIO_QUEUE_DESC_LOW,
    VIRTIO_MMIO_QUEUE_NOTIFY, VIRTIO_MMIO_QUEUE_NUM_MAX, VIRTIO_MMIO_QUEUE_READY,
    VIRTIO_MMIO_QUEUE_SEL, VIRTIO_MMIO_STATUS, VIRTIO_MMIO_VENDOR_ID, VIRTIO_MMIO_VERSION,
    VIRTQ_DESC_F_NEXT, VIRTQ_DESC_F_WRITE,
};

fn read_u32(device: &MmioTransport, offset: u64) -> u32 {
    let mut data = [0u8; 4];
    device.handle_mmio_read(offset, &mut data);
    u32::from_le_bytes(data)
}

fn write_u32(device: &mut MmioTransport, offset: u64, val: u32) -> MmioEffect {
    device.handle_mmio_write(offset, &val.to_le_bytes(), true)
}

#[test]
fn mmio_magic_version_device_id() {
    let device = MmioTransport::fs("test");
    assert_eq!(read_u32(&device, VIRTIO_MMIO_MAGIC), VIRTIO_MMIO_MAGIC_VALUE);
    assert_eq!(read_u32(&device, VIRTIO_MMIO_VERSION), 2);
    assert_eq!(read_u32(&device, VIRTIO_MMIO_DEVICE_ID), VIRTIO_ID_FS);
    assert_eq!(read_u32(&device, VIRTIO_MMIO_VENDOR_ID), 0x554d4551);
}

#[test]
fn config_read_tag_byte_by_byte() {
    let device = MmioTransport::fs("share0");
    let mut tag_bytes = Vec::new();
    for i in 0..FS_TAG_SIZE {
        let mut byte = [0u8; 1];
        device.handle_mmio_read(VIRTIO_MMIO_CONFIG + i, &mut byte);
        tag_bytes.push(byte[0]);
    }
    let tag_str = std::str::from_utf8(&tag_bytes[..6]).unwrap();
    assert_eq!(tag_str, "share0");
    for &b in &tag_bytes[6..] {
        assert_eq!(b, 0);
    }
}

#[test]
fn config_read_tag_four_bytes() {
    let device = MmioTransport::fs("share0");
    let mut tag_bytes = Vec::new();
    for i in (0..FS_TAG_SIZE).step_by(4) {
        let mut chunk = [0u8; 4];
        device.handle_mmio_read(VIRTIO_MMIO_CONFIG + i, &mut chunk);
        tag_bytes.extend_from_slice(&chunk);
    }
    let tag_str = std::str::from_utf8(&tag_bytes[..6]).unwrap();
    assert_eq!(tag_str, "share0");
}

#[test]
fn config_read_tag_two_bytes() {
    let device = MmioTransport::fs("ab");
    let mut chunk = [0u8; 2];
    device.handle_mmio_read(VIRTIO_MMIO_CONFIG, &mut chunk);
    assert_eq!(&chunk, b"ab");
}

#[test]
fn config_read_num_request_queues() {
    let device = MmioTransport::fs("test");
    let num_queues = read_u32(&device, VIRTIO_MMIO_CONFIG + FS_TAG_SIZE);
    assert_eq!(num_queues, 1);
}

#[test]
fn config_read_num_request_queues_byte_by_byte() {
    let device = MmioTransport::fs("test");
    let mut bytes = [0u8; 4];
    for i in 0..4 {
        let mut byte = [0u8; 1];
        device.handle_mmio_read(VIRTIO_MMIO_CONFIG + FS_TAG_SIZE + i, &mut byte);
        bytes[i as usize] = byte[0];
    }
    let num_queues = u32::from_le_bytes(bytes);
    assert_eq!(num_queues, 1);
}

#[test]
fn feature_negotiation() {
    let mut device = MmioTransport::fs("test");

    write_u32(&mut device, VIRTIO_MMIO_DEVICE_FEATURES_SEL, 0);
    let features_low = read_u32(&device, VIRTIO_MMIO_DEVICE_FEATURES);
    assert_eq!(features_low, 0);

    write_u32(&mut device, VIRTIO_MMIO_DEVICE_FEATURES_SEL, 1);
    let features_high = read_u32(&device, VIRTIO_MMIO_DEVICE_FEATURES);
    assert_eq!(features_high, 1);

    write_u32(&mut device, VIRTIO_MMIO_DRIVER_FEATURES_SEL, 1);
    write_u32(&mut device, VIRTIO_MMIO_DRIVER_FEATURES, 1);
    assert_eq!(device.driver_features, VIRTIO_F_VERSION_1);
}

#[test]
fn queue_configuration() {
    let mut device = MmioTransport::fs("test");

    assert_eq!(read_u32(&device, VIRTIO_MMIO_QUEUE_NUM_MAX), DEFAULT_QUEUE_SIZE as u32);

    write_u32(&mut device, VIRTIO_MMIO_QUEUE_SEL, 0);
    assert_eq!(device.queue_sel, 0);

    assert_eq!(read_u32(&device, VIRTIO_MMIO_QUEUE_READY), 0);

    write_u32(&mut device, VIRTIO_MMIO_QUEUE_SEL, 1);
    assert_eq!(device.queue_sel, 1);
}

#[test]
fn device_status_lifecycle() {
    let mut device = MmioTransport::fs("test");

    assert_eq!(read_u32(&device, VIRTIO_MMIO_STATUS), 0);

    write_u32(&mut device, VIRTIO_MMIO_STATUS, 1);
    assert_eq!(device.device_status, 1);

    write_u32(&mut device, VIRTIO_MMIO_STATUS, 3);
    assert_eq!(device.device_status, 3);

    let effect = write_u32(&mut device, VIRTIO_MMIO_STATUS, 0);
    assert_eq!(device.device_status, 0);
    assert_eq!(effect, MmioEffect::Reset);
}

#[test]
fn long_tag_truncation() {
    let device = MmioTransport::fs("this_is_a_very_long_tag_name_that_exceeds_limit");
    let mut tag_bytes = Vec::new();
    for i in 0..FS_TAG_SIZE {
        let mut byte = [0u8; 1];
        device.handle_mmio_read(VIRTIO_MMIO_CONFIG + i, &mut byte);
        tag_bytes.push(byte[0]);
    }
    let expected = "this_is_a_very_long_tag_name_that_ex";
    assert_eq!(std::str::from_utf8(&tag_bytes[..36]).unwrap(), expected);
}

#[test]
fn interrupt_status_and_ack() {
    let mut device = MmioTransport::fs("test");

    device.signal_used_queue();
    assert_eq!(read_u32(&device, VIRTIO_MMIO_INTERRUPT_STATUS), VIRTIO_INT_USED_RING);

    write_u32(&mut device, VIRTIO_MMIO_INTERRUPT_ACK, VIRTIO_INT_USED_RING);
    assert_eq!(read_u32(&device, VIRTIO_MMIO_INTERRUPT_STATUS), 0);
}

#[test]
fn queue_state_defaults() {
    let q = VirtioQueueState::default();
    assert_eq!(q, VirtioQueueState::new(256));
    assert!(!q.ready);
    assert_eq!(q.desc_table, 0);
}

#[test]
fn queue_address_written_in_halves() {
    let mut device = MmioTransport::console();
    write_u32(&mut device, VIRTIO_MMIO_QUEUE_SEL, 1);
    write_u32(&mut device, VIRTIO_MMIO_QUEUE_DESC_LOW, 0x1000);
    write_u32(&mut device, VIRTIO_MMIO_QUEUE_DESC_HIGH, 0x2);
    assert_eq!(device.queue(1).unwrap().desc_table, 0x2_0000_1000);
    assert_eq!(device.queue(0).unwrap().desc_table, 0);
    write_u32(&mut device, VIRTIO_MMIO_QUEUE_SEL, 5);
    assert_eq!(device.queue_sel, 1);
}

#[test]
fn notify_needs_driver_ok_except_on_fs() {
    let mut console = MmioTransport::console();
    assert_eq!(write_u32(&mut console, VIRTIO_MMIO_QUEUE_NOTIFY, 1), MmioEffect::Nothing);
    write_u32(&mut console, VIRTIO_MMIO_STATUS, 0xf);
    assert_eq!(write_u32(&mut console, VIRTIO_MMIO_QUEUE_NOTIFY, 1), MmioEffect::ProcessQueue(1));
    assert_eq!(write_u32(&mut console, VIRTIO_MMIO_QUEUE_NOTIFY, 0), MmioEffect::ProcessQueue(0));
    assert_eq!(write_u32(&mut console, VIRTIO_MMIO_QUEUE_NOTIFY, 2), MmioEffect::Nothing);

    let mut fs = MmioTransport::fs("t");
    assert_eq!(write_u32(&mut fs, VIRTIO_MMIO_QUEUE_NOTIFY, 1), MmioEffect::ProcessQueue(1));
    assert_eq!(write_u32(&mut fs, VIRTIO_MMIO_QUEUE_NOTIFY, 0), MmioEffect::Nothing);
}

#[test]
fn queue_ready_checks_addresses() {
    let mut fs = MmioTransport::fs("t");
    write_u32(&mut fs, VIRTIO_MMIO_QUEUE_SEL, 1);
    fs.handle_mmio_write(VIRTIO_MMIO_QUEUE_READY, &1u32.to_le_bytes(), true);
    assert_eq!(read_u32(&fs, VIRTIO_MMIO_QUEUE_READY), 0);
    fs.set_memory_attached();
    fs.handle_mmio_write(VIRTIO_MMIO_QUEUE_READY, &1u32.to_le_bytes(), false);
    assert_eq!(read_u32(&fs, VIRTIO_MMIO_QUEUE_READY), 0);
    fs.handle_mmio_write(VIRTIO_MMIO_QUEUE_READY, &1u32.to_le_bytes(), true);
    assert_eq!(read_u32(&fs, VIRTIO_MMIO_QUEUE_READY), 1);

    let mut net = MmioTransport::net([1, 2, 3, 4, 5, 6]);
    net.handle_mmio_write(VIRTIO_MMIO_QUEUE_READY, &1u32.to_le_bytes(), false);
    assert_eq!(read_u32(&net, VIRTIO_MMIO_QUEUE_READY), 1);
    net.set_memory_attached();
    net.handle_mmio_write(VIRTIO_MMIO_QUEUE_READY, &0u32.to_le_bytes(), false);
    net.handle_mmio_write(VIRTIO_MMIO_QUEUE_READY, &1u32.to_le_bytes(), false);
    assert_eq!(read_u32(&net, VIRTIO_MMIO_QUEUE_READY), 0);
}

#[test]
fn net_config_reads_mac_bytes() {
    let net = MmioTransport::net([0x52, 0x54, 0, 0x12, 0x34, 0x56]);
    let mut b = [0u8; 1];
    net.handle_mmio_read(VIRTIO_MMIO_CONFIG + 3, &mut b);
    assert_eq!(b[0], 0x12);
    assert_eq!(net.kind, DeviceKind::Net);
    let mut short = [9u8; 2];
    net.handle_mmio_read(VIRTIO_MMIO_MAGIC, &mut short);
    assert_eq!(short, [9, 9]);
}

#[test]
fn vsock_config_reports_guest_cid() {
    let dev = MmioTransport::vsock(0x1_0000_0003);
    assert_eq!(read_u32(&dev, VIRTIO_MMIO_CONFIG), 3);
    assert_eq!(read_u32(&dev, VIRTIO_MMIO_CONFIG + 4), 1);
    assert_eq!(dev.queues.len(), 3);
}

#[test]
fn short_writes_are_ignored() {
    let mut dev = MmioTransport::console();
    assert_eq!(dev.handle_mmio_write(VIRTIO_MMIO_STATUS, &[1, 0], true), MmioEffect::Nothing);
    assert_eq!(dev.device_status, 0);
}

#[test]
fn descriptor_plans() {
    let mut raw = [0u8; 16];
    raw[0..8].copy_from_slice(&0x1000u64.to_le_bytes());
    raw[8..12].copy_from_slice(&100u32.to_le_bytes());
    raw[12..14].copy_from_slice(&(VIRTQ_DESC_F_NEXT).to_le_bytes());
    raw[14..16].copy_from_slice(&1u16.to_le_bytes());
    let d0 = Descriptor::from_bytes(&raw).unwrap();
    assert_eq!(d0.addr, 0x1000);
    assert!(d0.has_next());
    assert!(!d0.is_write_only());
    let d1 = Descriptor { addr: 0x2000, len: 10, flags: VIRTQ_DESC_F_WRITE | VIRTQ_DESC_F_NEXT, next: 2 };
    let d2 = Descriptor { addr: 0x3000, len: 100_000, flags: VIRTQ_DESC_F_WRITE, next: 0 };
    let d3 = Descriptor { addr: 0x4000, len: 100_000, flags: 0, next: 0 };
    let chain = [d0, d1, d2, d3];
    assert_eq!(read_plan(&chain), vec![(0x1000, 100), (0x4000, MAX_DESCRIPTOR_LEN)]);
    assert_eq!(write_plan(&chain, 25), vec![(0x2000, 0, 10), (0x3000, 10, 15)]);
    assert_eq!(write_plan(&chain, 5), vec![(0x2000, 0, 5)]);
    assert_eq!(descriptor_addr(0x8000, 3), 0x8030);
    assert_eq!(avail_entry_addr(0x9000, 258, 256), 0x9000 + 4 + 4);
    assert_eq!(used_entry_addr(0xa000, 257, 256), 0xa000 + 4 + 8);
}
