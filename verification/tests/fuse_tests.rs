use capsa::fuse::{
    error_response, extract_name, handle_init, route_request, setattr_plan, success_response,
    success_response_empty, FuseDirent, FuseInHeader, FuseInitIn, FuseOpcode, FuseOutHeader,
    FuseRoute, FuseSetattrIn, TimeSpec, FATTR_ATIME, FATTR_GID, FATTR_MODE, FATTR_MTIME_NOW,
    FATTR_SIZE, FUSE_ATTR_SIZE, FUSE_IN_HEADER_SIZE, FUSE_OUT_HEADER_SIZE,
};

fn out_header(resp: &[u8]) -> FuseOutHeader {
    FuseOutHeader {
        len: u32::from_le_bytes(resp[0..4].try_into().unwrap()),
        error: i32::from_le_bytes(resp[4..8].try_into().unwrap()),
        unique: u64::from_le_bytes(resp[8..16].try_into().unwrap()),
    }
}

#[test]
fn fuse_in_header_size() {
    assert_eq!(FUSE_IN_HEADER_SIZE, 40);
}

#[test]
fn fuse_out_header_size() {
    assert_eq!(FUSE_OUT_HEADER_SIZE, 16);
}

#[test]
fn fuse_attr_size() {
    assert_eq!(FUSE_ATTR_SIZE, 88);
}

#[test]
fn parse_fuse_in_header() {
    let mut data = [0u8; 40];
    data[0..4].copy_from_slice(&100u32.to_le_bytes());
    data[4..8].copy_from_slice(&26u32.to_le_bytes());
    data[8..16].copy_from_slice(&12345u64.to_le_bytes());
    data[16..24].copy_from_slice(&1u64.to_le_bytes());

    let header = FuseInHeader::from_bytes(&data).unwrap();
    assert_eq!(header.len, 100);
    assert_eq!(header.opcode, 26);
    assert_eq!(header.unique, 12345);
    assert_eq!(header.nodeid, 1);
}

#[test]
fn serialize_fuse_out_header() {
    let header = FuseOutHeader {
        len: 16,
        error: 0,
        unique: 12345,
    };
    let bytes = header.to_bytes();
    assert_eq!(u32::from_le_bytes(bytes[0..4].try_into().unwrap()), 16);
    assert_eq!(i32::from_le_bytes(bytes[4..8].try_into().unwrap()), 0);
    assert_eq!(u64::from_le_bytes(bytes[8..16].try_into().unwrap()), 12345);
}

#[test]
fn error_response_format() {
    let enoent = 2;
    let resp = error_response(999, enoent);
    assert_eq!(resp.len(), 16);
    let header = out_header(&resp);
    assert_eq!(header.len, 16);
    assert_eq!(header.error, -enoent);
    assert_eq!(header.unique, 999);
}

#[test]
fn dirent_entry_size_alignment() {
    assert_eq!(FuseDirent::entry_size(1), 32);
    assert_eq!(FuseDirent::entry_size(8), 32);
    assert_eq!(FuseDirent::entry_size(9), 40);
}

#[test]
fn short_header_is_rejected() {
    assert!(FuseInHeader::from_bytes(&[0u8; 39]).is_none());
}

#[test]
fn success_response_carries_payload() {
    let resp = success_response(7, &[1, 2, 3]);
    let header = out_header(&resp);
    assert_eq!(header.len, 19);
    assert_eq!(header.error, 0);
    assert_eq!(header.unique, 7);
    assert_eq!(&resp[16..], &[1, 2, 3]);
    let empty = success_response_empty(8);
    assert_eq!(out_header(&empty).len, 16);
}

#[test]
fn opcodes_round_trip_through_numbers() {
    for n in 0u32..60 {
        if let Ok(op) = FuseOpcode::try_from(n) {
            assert_eq!(op.number(), n);
        }
    }
    assert_eq!(FuseOpcode::try_from(26), Ok(FuseOpcode::Init));
    assert!(FuseOpcode::try_from(7).is_err());
}

fn request(opcode: u32, unique: u64, body: &[u8]) -> Vec<u8> {
    let mut data = vec![0u8; 40];
    data[0..4].copy_from_slice(&((40 + body.len()) as u32).to_le_bytes());
    data[4..8].copy_from_slice(&opcode.to_le_bytes());
    data[8..16].copy_from_slice(&unique.to_le_bytes());
    data[16..24].copy_from_slice(&1u64.to_le_bytes());
    data.extend_from_slice(body);
    data
}

#[test]
fn requests_are_routed_by_opcode() {
    match route_request(&[0u8; 10]) {
        FuseRoute::Reply(b) => {
            assert_eq!(out_header(&b).error, -22);
            assert_eq!(out_header(&b).unique, 0);
        }
        _ => panic!("expected a reply"),
    }
    match route_request(&request(999, 5, &[])) {
        FuseRoute::Reply(b) => assert_eq!(out_header(&b).error, -38),
        _ => panic!("expected a reply"),
    }
    match route_request(&request(21, 6, &[])) {
        FuseRoute::Reply(b) => {
            assert_eq!(out_header(&b).error, -38);
            assert_eq!(out_header(&b).unique, 6);
        }
        _ => panic!("expected a reply"),
    }
    match route_request(&request(1, 9, b"name\0")) {
        FuseRoute::Dispatch { header, opcode, body } => {
            assert_eq!(header.unique, 9);
            assert_eq!(opcode, FuseOpcode::Lookup);
            assert_eq!(body, b"name\0".to_vec());
            assert_eq!(extract_name(&body), Some("name"));
        }
        _ => panic!("expected dispatch"),
    }
}

#[test]
fn init_negotiates_protocol() {
    let mut body = [0u8; 16];
    body[0..4].copy_from_slice(&7u32.to_le_bytes());
    body[4..8].copy_from_slice(&31u32.to_le_bytes());
    body[8..12].copy_from_slice(&65536u32.to_le_bytes());
    let parsed = FuseInitIn::from_bytes(&body).unwrap();
    assert_eq!(parsed.max_readahead, 65536);
    let (resp, initialised) = handle_init(3, &body);
    assert!(initialised);
    let header = out_header(&resp);
    assert_eq!(header.len, 80);
    assert_eq!(header.error, 0);
    assert_eq!(u32::from_le_bytes(resp[16..20].try_into().unwrap()), 7);
    assert_eq!(u32::from_le_bytes(resp[24..28].try_into().unwrap()), 65536);

    body[0..4].copy_from_slice(&6u32.to_le_bytes());
    let (resp, initialised) = handle_init(4, &body);
    assert!(!initialised);
    assert_eq!(out_header(&resp).error, -71);

    let (resp, initialised) = handle_init(5, &body[..8]);
    assert!(!initialised);
    assert_eq!(out_header(&resp).error, -22);
}

#[test]
fn setattr_plans_follow_valid_bits() {
    let mut body = vec![0u8; 88];
    let valid = FATTR_SIZE | FATTR_MODE | FATTR_GID | FATTR_ATIME | FATTR_MTIME_NOW;
    body[0..4].copy_from_slice(&valid.to_le_bytes());
    body[16..24].copy_from_slice(&4096u64.to_le_bytes());
    body[32..40].copy_from_slice(&1000u64.to_le_bytes());
    body[56..60].copy_from_slice(&5u32.to_le_bytes());
    body[68..72].copy_from_slice(&0o644u32.to_le_bytes());
    body[80..84].copy_from_slice(&42u32.to_le_bytes());
    let s = FuseSetattrIn::from_bytes(&body).unwrap();
    let plan = setattr_plan(&s);
    assert_eq!(plan.truncate, Some(4096));
    assert_eq!(plan.chmod, Some(0o644));
    assert_eq!(plan.chown, Some((u32::MAX, 42)));
    assert_eq!(plan.times, Some((TimeSpec::At(1000, 5), TimeSpec::Now)));
}
