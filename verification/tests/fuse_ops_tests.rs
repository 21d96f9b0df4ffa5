use capsa::fuse::{FuseAttr, FuseOpcode, ENOSYS, EROFS, FOPEN_KEEP_CACHE, MAX_READ_SIZE};
use capsa::fuse_ops::{
    attr_reply, create_reply, decode_op, entry_reply, open_reply, write_reply, FuseOp,
};

const EINVAL: i32 = 22;

fn le32(v: u32) -> Vec<u8> {
    v.to_le_bytes().to_vec()
}

fn le64(v: u64) -> Vec<u8> {
    v.to_le_bytes().to_vec()
}

#[test]
fn lookup_takes_the_name() {
    match decode_op(FuseOpcode::Lookup, b"hello\0junk", false) {
        Ok(FuseOp::Lookup { name }) => assert_eq!(name, "hello"),
        other => panic!("unexpected {:?}", other),
    }
    assert_eq!(decode_op(FuseOpcode::Lookup, b"no terminator", false).err(), Some(EINVAL));
    assert_eq!(decode_op(FuseOpcode::Lookup, b"\xff\xfe\0", false).err(), Some(EINVAL));
}

#[test]
fn mknod_and_unserved_opcodes_are_enosys() {
    assert_eq!(decode_op(FuseOpcode::Mknod, &[0u8; 32], false).err(), Some(ENOSYS));
    assert_eq!(decode_op(FuseOpcode::Getxattr, &[], false).err(), Some(ENOSYS));
}

#[test]
fn read_only_share_refuses_changes_first() {
    for op in [
        FuseOpcode::Setattr,
        FuseOpcode::Symlink,
        FuseOpcode::Mkdir,
        FuseOpcode::Unlink,
        FuseOpcode::Rmdir,
        FuseOpcode::Rename,
        FuseOpcode::Link,
        FuseOpcode::Write,
        FuseOpcode::Create,
    ] {
        assert_eq!(decode_op(op, &[], true).err(), Some(EROFS));
    }
    assert!(decode_op(FuseOpcode::Getattr, &[], true).is_ok());
}

#[test]
fn symlink_and_rename_carry_two_names() {
    match decode_op(FuseOpcode::Symlink, b"link\0target\0", false) {
        Ok(FuseOp::Symlink { name, target }) => {
            assert_eq!(name, "link");
            assert_eq!(target, "target");
        }
        other => panic!("unexpected {:?}", other),
    }
    assert_eq!(decode_op(FuseOpcode::Symlink, b"link\0target", false).err(), Some(EINVAL));
    let mut body = le64(9);
    body.extend_from_slice(b"old\0new\0");
    match decode_op(FuseOpcode::Rename, &body, false) {
        Ok(FuseOp::Rename { newdir, old_name, new_name }) => {
            assert_eq!(newdir, 9);
            assert_eq!(old_name, "old");
            assert_eq!(new_name, "new");
        }
        other => panic!("unexpected {:?}", other),
    }
    assert_eq!(decode_op(FuseOpcode::Rename, &[1, 2, 3], false).err(), Some(EINVAL));
}

#[test]
fn mkdir_and_create_apply_the_umask() {
    let mut body = le32(0o777);
    body.extend(le32(0o022));
    body.extend_from_slice(b"dir\0");
    match decode_op(FuseOpcode::Mkdir, &body, false) {
        Ok(FuseOp::Mkdir { name, mode }) => {
            assert_eq!(name, "dir");
            assert_eq!(mode, 0o755);
        }
        other => panic!("unexpected {:?}", other),
    }
    let mut body = le32(0o1);
    body.extend(le32(0o666));
    body.extend(le32(0o077));
    body.extend(le32(0));
    body.extend_from_slice(b"f\0");
    match decode_op(FuseOpcode::Create, &body, false) {
        Ok(FuseOp::Create { name, flags, mode }) => {
            assert_eq!(name, "f");
            assert_eq!(flags, 1);
            assert_eq!(mode, 0o600);
        }
        other => panic!("unexpected {:?}", other),
    }
}

#[test]
fn read_is_capped_and_write_is_cut() {
    let mut body = le64(3);
    body.extend(le64(100));
    body.extend(le32(u32::MAX));
    body.extend(vec![0u8; 20]);
    match decode_op(FuseOpcode::Read, &body, false) {
        Ok(FuseOp::Read { fh, offset, size }) => assert_eq!((fh, offset, size), (3, 100, MAX_READ_SIZE)),
        other => panic!("unexpected {:?}", other),
    }
    let mut body = le64(4);
    body.extend(le64(8));
    body.extend(le32(3));
    body.extend(vec![0u8; 20]);
    body.extend_from_slice(b"abcdef");
    match decode_op(FuseOpcode::Write, &body, false) {
        Ok(FuseOp::Write { fh, offset, data }) => {
            assert_eq!((fh, offset), (4, 8));
            assert_eq!(data, b"abc");
        }
        other => panic!("unexpected {:?}", other),
    }
    let mut short = le64(4);
    short.extend(le64(8));
    short.extend(le32(100));
    short.extend(vec![0u8; 20]);
    short.extend_from_slice(b"xy");
    match decode_op(FuseOpcode::Write, &short, false) {
        Ok(FuseOp::Write { data, .. }) => assert_eq!(data, b"xy"),
        other => panic!("unexpected {:?}", other),
    }
}

#[test]
fn fsync_datasync_bit_and_forget() {
    let mut body = le64(5);
    body.extend(le32(1));
    body.extend(le32(0));
    match decode_op(FuseOpcode::Fsync, &body, false) {
        Ok(FuseOp::Fsync { fh, datasync }) => assert_eq!((fh, datasync), (5, true)),
        other => panic!("unexpected {:?}", other),
    }
    match decode_op(FuseOpcode::Forget, &le64(2), false) {
        Ok(FuseOp::Forget { nlookup }) => assert_eq!(nlookup, Some(2)),
        other => panic!("unexpected {:?}", other),
    }
    match decode_op(FuseOpcode::Forget, &[1], false) {
        Ok(FuseOp::Forget { nlookup }) => assert_eq!(nlookup, None),
        other => panic!("unexpected {:?}", other),
    }
}

#[test]
fn reply_layouts() {
    let attr = FuseAttr { ino: 7, size: 10, ..Default::default() };
    let e = entry_reply(11, 7, attr);
    assert_eq!(e.len(), 144);
    assert_eq!(u32::from_le_bytes(e[0..4].try_into().unwrap()), 144);
    assert_eq!(u64::from_le_bytes(e[8..16].try_into().unwrap()), 11);
    assert_eq!(u64::from_le_bytes(e[16..24].try_into().unwrap()), 7);
    assert_eq!(u64::from_le_bytes(e[32..40].try_into().unwrap()), 1);
    assert_eq!(attr_reply(11, attr).len(), 120);
    let o = open_reply(11, 3, true);
    assert_eq!(o.len(), 32);
    assert_eq!(u32::from_le_bytes(o[24..28].try_into().unwrap()), FOPEN_KEEP_CACHE);
    let d = open_reply(11, 3, false);
    assert_eq!(u32::from_le_bytes(d[24..28].try_into().unwrap()), 0);
    let c = create_reply(11, 7, attr, 3);
    assert_eq!(c.len(), 160);
    assert_eq!(u64::from_le_bytes(c[144..152].try_into().unwrap()), 3);
    let w = write_reply(11, 42);
    assert_eq!(w.len(), 24);
    assert_eq!(u32::from_le_bytes(w[16..20].try_into().unwrap()), 42);
}
