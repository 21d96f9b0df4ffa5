use capsa::config::VsockPortConfig;
use capsa::vsock::{
    BridgeToDevice, DeviceToBridge, VsockBridge, VsockDevice, VsockHeader, VSOCK_BUF_ALLOC,
    VSOCK_GUEST_CID, VSOCK_HDR_SIZE, VSOCK_HOST_CID, VSOCK_OP_CREDIT_REQUEST,
    VSOCK_OP_CREDIT_UPDATE, VSOCK_OP_REQUEST, VSOCK_OP_RESPONSE, VSOCK_OP_RST, VSOCK_OP_RW,
    VSOCK_OP_SHUTDOWN, VSOCK_TYPE_STREAM,
};

fn guest_packet(op: u16, guest_port: u32, host_port: u32, payload: &[u8]) -> Vec<u8> {
    let hdr = VsockHeader {
        src_cid: VSOCK_GUEST_CID,
        dst_cid: VSOCK_HOST_CID,
        src_port: guest_port,
        dst_port: host_port,
        len: payload.len() as u32,
        type_: VSOCK_TYPE_STREAM,
        op,
        flags: 0,
        buf_alloc: 4096,
        fwd_cnt: 0,
    };
    let mut p = hdr.to_bytes();
    p.extend_from_slice(payload);
    p
}

#[test]
fn header_roundtrip() {
    let hdr = VsockHeader {
        src_cid: 3,
        dst_cid: 2,
        src_port: 1234,
        dst_port: 5678,
        len: 9,
        type_: 1,
        op: 5,
        flags: 7,
        buf_alloc: 65536,
        fwd_cnt: 42,
    };
    let bytes = hdr.to_bytes();
    assert_eq!(bytes.len(), VSOCK_HDR_SIZE);
    assert_eq!(VsockHeader::from_bytes(&bytes), Some(hdr));
    assert_eq!(u32::from_le_bytes(bytes[16..20].try_into().unwrap()), 1234);
    assert!(VsockHeader::from_bytes(&bytes[..43]).is_none());
}

#[test]
fn connect_data_shutdown_cycle() {
    let mut dev = VsockDevice::new();
    match dev.handle_tx_packet(&guest_packet(VSOCK_OP_REQUEST, 1000, 52, &[])) {
        Some(DeviceToBridge::Connect { local_port }) => assert_eq!(local_port, 52),
        other => panic!("unexpected {:?}", other),
    }
    let resp = dev.pop_rx_packet().unwrap();
    let h = VsockHeader::from_bytes(&resp).unwrap();
    assert_eq!(h.op, VSOCK_OP_RESPONSE);
    assert_eq!((h.src_port, h.dst_port), (52, 1000));
    assert_eq!(h.buf_alloc, VSOCK_BUF_ALLOC);

    match dev.handle_tx_packet(&guest_packet(VSOCK_OP_RW, 1000, 52, b"hello")) {
        Some(DeviceToBridge::Data { local_port, data }) => {
            assert_eq!(local_port, 52);
            assert_eq!(data, b"hello".to_vec());
        }
        other => panic!("unexpected {:?}", other),
    }

    assert!(dev.handle_tx_packet(&guest_packet(VSOCK_OP_CREDIT_REQUEST, 1000, 52, &[])).is_none());
    let credit = VsockHeader::from_bytes(&dev.pop_rx_packet().unwrap()).unwrap();
    assert_eq!(credit.op, VSOCK_OP_CREDIT_UPDATE);
    assert_eq!(credit.fwd_cnt, 5);

    match dev.handle_tx_packet(&guest_packet(VSOCK_OP_SHUTDOWN, 1000, 52, &[])) {
        Some(DeviceToBridge::Shutdown { local_port }) => assert_eq!(local_port, 52),
        other => panic!("unexpected {:?}", other),
    }
    let rst = VsockHeader::from_bytes(&dev.pop_rx_packet().unwrap()).unwrap();
    assert_eq!(rst.op, VSOCK_OP_RST);
    assert!(dev.handle_tx_packet(&guest_packet(VSOCK_OP_RW, 1000, 52, b"late")).is_none());
    assert!(!dev.has_pending());
}

#[test]
fn packets_for_other_cids_are_dropped() {
    let mut dev = VsockDevice::new();
    let mut p = guest_packet(VSOCK_OP_REQUEST, 1, 2, &[]);
    p[8..16].copy_from_slice(&99u64.to_le_bytes());
    assert!(dev.handle_tx_packet(&p).is_none());
    assert!(!dev.has_pending());
    assert!(dev.handle_tx_packet(&[0u8; 10]).is_none());
}

#[test]
fn truncated_data_is_not_forwarded() {
    let mut dev = VsockDevice::new();
    dev.handle_tx_packet(&guest_packet(VSOCK_OP_REQUEST, 7, 8, &[]));
    let mut p = guest_packet(VSOCK_OP_RW, 7, 8, b"abcdef");
    p.truncate(VSOCK_HDR_SIZE + 3);
    assert!(dev.handle_tx_packet(&p).is_none());
}

#[test]
fn bridge_messages_reach_the_guest() {
    let mut dev = VsockDevice::new();
    dev.handle_tx_packet(&guest_packet(VSOCK_OP_REQUEST, 1000, 52, &[]));
    dev.pop_rx_packet();
    dev.handle_bridge_message(BridgeToDevice::Data { local_port: 52, data: b"pong".to_vec() });
    let pkt = dev.pop_rx_packet().unwrap();
    let h = VsockHeader::from_bytes(&pkt).unwrap();
    assert_eq!(h.op, VSOCK_OP_RW);
    assert_eq!(h.len, 4);
    assert_eq!((h.src_cid, h.dst_cid), (VSOCK_HOST_CID, VSOCK_GUEST_CID));
    assert_eq!(&pkt[VSOCK_HDR_SIZE..], b"pong");

    dev.handle_bridge_message(BridgeToDevice::Data { local_port: 99, data: b"x".to_vec() });
    assert!(!dev.has_pending());

    dev.handle_bridge_message(BridgeToDevice::Closed { local_port: 52 });
    let h = VsockHeader::from_bytes(&dev.pop_rx_packet().unwrap()).unwrap();
    assert_eq!(h.op, VSOCK_OP_RST);
    assert!(dev.handle_tx_packet(&guest_packet(VSOCK_OP_RW, 1000, 52, b"x")).is_none());
}

#[test]
fn reset_forgets_everything() {
    let mut dev = VsockDevice::new();
    dev.handle_tx_packet(&guest_packet(VSOCK_OP_REQUEST, 1, 2, &[]));
    dev.reset();
    assert!(!dev.has_pending());
    assert!(dev.handle_tx_packet(&guest_packet(VSOCK_OP_RW, 1, 2, b"x")).is_none());
}

#[test]
fn bridge_maps_ports_by_direction() {
    let bridge = VsockBridge::new(vec![
        VsockPortConfig::listen(1024, "/tmp/a.sock"),
        VsockPortConfig::connect(2048, "/tmp/b.sock"),
        VsockPortConfig::listen(1024, "/tmp/c.sock"),
    ]);
    assert_eq!(bridge.path_for(1024, false), Some("/tmp/c.sock".to_string()));
    assert_eq!(bridge.path_for(2048, true), Some("/tmp/b.sock".to_string()));
    assert_eq!(bridge.path_for(2048, false), None);
    let listen = bridge.port_entries(false);
    assert_eq!(listen, vec![(1024, "/tmp/c.sock".to_string())]);
    let connect = bridge.port_entries(true);
    assert_eq!(connect, vec![(2048, "/tmp/b.sock".to_string())]);
}
