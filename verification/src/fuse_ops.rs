//! What the shared-directory device does for each FUSE request: the request body decoded
//! into an operation (or refused with an errno) before the host file system is touched,
//! and the replies built from what the host answered.
use vstd::prelude::*;
use crate::fuse::{
    extract_name, first_nul, is_served, name_bytes, success_response, FuseAttr, FuseAttrOut,
    FuseCreateIn, FuseEntryOut, FuseFlushIn, FuseForgetIn, FuseFsyncIn, FuseLinkIn, FuseMkdirIn,
    FuseOpcode, FuseOpenIn, FuseOpenOut, FuseOutHeader, FuseReadIn, FuseReleaseIn, FuseRenameIn,
    FuseSetattrIn, FuseWriteIn, FuseWriteOut, ENOSYS, EROFS, FOPEN_KEEP_CACHE, MAX_READ_SIZE,
    MAX_WRITE_SIZE,
};
use crate::inode::EINVAL;
use crate::text::owned;
use crate::wire::copy_range;

verus! {

/// The zero-terminated UTF-8 name at the start of `s`, when there is one.
pub open spec fn name_at(s: Seq<u8>) -> Option<Seq<char>> {
    match name_bytes(s) {
        Some(b) => if vstd::utf8::valid_utf8(b) { Some(vstd::utf8::decode_utf8(b)) } else { None },
        None => None,
    }
}

/// The bytes after the first zero byte of `s` (none when it has no zero byte).
pub open spec fn after_nul(s: Seq<u8>) -> Seq<u8> {
    match first_nul(s) {
        Some(i) => s.subrange(i + 1, s.len() as int),
        None => Seq::empty(),
    }
}

/// The bytes of `s` from position `n` on.
pub open spec fn from(s: Seq<u8>, n: int) -> Seq<u8> {
    s.subrange(n, s.len() as int)
}

/// Opcodes whose requests change the shared directory, refused on a read-only share.
pub open spec fn changes_share(op: FuseOpcode) -> bool {
    match op {
        FuseOpcode::Setattr | FuseOpcode::Symlink | FuseOpcode::Mkdir | FuseOpcode::Unlink
        | FuseOpcode::Rmdir | FuseOpcode::Rename | FuseOpcode::Link | FuseOpcode::Write
        | FuseOpcode::Create => true,
        _ => false,
    }
}

/// A request decoded into what the device does for it. Names are as the guest sent them;
/// modes have the umask applied.
#[derive(Debug)]
pub enum FuseOp {
    Init,
    Destroy,
    Lookup { name: String },
    /// Drop `nlookup` references (nothing when the body is too short).
    Forget { nlookup: Option<u64> },
    Getattr,
    Setattr(FuseSetattrIn),
    Readlink,
    Symlink { name: String, target: String },
    Mkdir { name: String, mode: u32 },
    Unlink { name: String },
    Rmdir { name: String },
    Rename { newdir: u64, old_name: String, new_name: String },
    Link { oldnodeid: u64, name: String },
    Open { flags: u32 },
    /// Read at most `size` bytes (already capped at `MAX_READ_SIZE`).
    Read { fh: u64, offset: u64, size: u32 },
    /// Write `data` (already cut to the announced size and `MAX_WRITE_SIZE`).
    Write { fh: u64, offset: u64, data: Vec<u8> },
    Statfs,
    Release { fh: u64 },
    Fsync { fh: u64, datasync: bool },
    Opendir,
    Readdir { fh: u64, offset: u64, size: u32 },
    Releasedir { fh: u64 },
    Fsyncdir,
    Access,
    Create { name: String, flags: u32, mode: u32 },
    Flush { fh: u64 },
}

/// What decoding a request with opcode `op` and body `body` gives: `ENOSYS` for `MKNOD` and
/// opcodes the device does not serve, `EROFS` for a change to a read-only share, `EINVAL`
/// for a body too short for its fixed part or without the names it must carry; otherwise
/// the operation with the body's fields.
pub open spec fn decoded(op: FuseOpcode, body: Seq<u8>, read_only: bool, r: Result<FuseOp, i32>) -> bool {
    if !is_served(op) || op == FuseOpcode::Mknod {
        r == Err::<FuseOp, i32>(ENOSYS)
    } else if read_only && changes_share(op) {
        r == Err::<FuseOp, i32>(EROFS)
    } else {
        match op {
            FuseOpcode::Init => r matches Ok(FuseOp::Init),
            FuseOpcode::Destroy => r matches Ok(FuseOp::Destroy),
            FuseOpcode::Getattr => r matches Ok(FuseOp::Getattr),
            FuseOpcode::Readlink => r matches Ok(FuseOp::Readlink),
            FuseOpcode::Statfs => r matches Ok(FuseOp::Statfs),
            FuseOpcode::Opendir => r matches Ok(FuseOp::Opendir),
            FuseOpcode::Fsyncdir => r matches Ok(FuseOp::Fsyncdir),
            FuseOpcode::Access => r matches Ok(FuseOp::Access),
            FuseOpcode::Lookup => match name_at(body) {
                Some(n) => r matches Ok(FuseOp::Lookup { name }) && name@ == n,
                None => r == Err::<FuseOp, i32>(EINVAL),
            },
            FuseOpcode::Unlink => match name_at(body) {
                Some(n) => r matches Ok(FuseOp::Unlink { name }) && name@ == n,
                None => r == Err::<FuseOp, i32>(EINVAL),
            },
            FuseOpcode::Rmdir => match name_at(body) {
                Some(n) => r matches Ok(FuseOp::Rmdir { name }) && name@ == n,
                None => r == Err::<FuseOp, i32>(EINVAL),
            },
            FuseOpcode::Forget => r matches Ok(FuseOp::Forget { nlookup })
                && nlookup == (if body.len() < 8 { None } else { Some(FuseForgetIn::parse(body).nlookup) }),
            FuseOpcode::Setattr => if body.len() < 88 {
                r == Err::<FuseOp, i32>(EINVAL)
            } else {
                r matches Ok(FuseOp::Setattr(s)) && s == FuseSetattrIn::parse(body)
            },
            FuseOpcode::Symlink => match (name_at(body), name_at(after_nul(body))) {
                (Some(n), Some(t)) => r matches Ok(FuseOp::Symlink { name, target }) && name@ == n && target@ == t,
                _ => r == Err::<FuseOp, i32>(EINVAL),
            },
            FuseOpcode::Mkdir => if body.len() < 8 {
                r == Err::<FuseOp, i32>(EINVAL)
            } else {
                let m = FuseMkdirIn::parse(body);
                match name_at(from(body, 8)) {
                    Some(n) => r matches Ok(FuseOp::Mkdir { name, mode }) && name@ == n && mode == m.mode & !m.umask,
                    None => r == Err::<FuseOp, i32>(EINVAL),
                }
            },
            FuseOpcode::Rename => if body.len() < 8 {
                r == Err::<FuseOp, i32>(EINVAL)
            } else {
                let names = from(body, 8);
                match (name_at(names), name_at(after_nul(names))) {
                    (Some(o), Some(n)) => r matches Ok(FuseOp::Rename { newdir, old_name, new_name })
                        && newdir == FuseRenameIn::parse(body).newdir && old_name@ == o && new_name@ == n,
                    _ => r == Err::<FuseOp, i32>(EINVAL),
                }
            },
            FuseOpcode::Link => if body.len() < 8 {
                r == Err::<FuseOp, i32>(EINVAL)
            } else {
                match name_at(from(body, 8)) {
                    Some(n) => r matches Ok(FuseOp::Link { oldnodeid, name })
                        && oldnodeid == FuseLinkIn::parse(body).oldnodeid && name@ == n,
                    None => r == Err::<FuseOp, i32>(EINVAL),
                }
            },
            FuseOpcode::Open => if body.len() < 8 {
                r == Err::<FuseOp, i32>(EINVAL)
            } else {
                r matches Ok(FuseOp::Open { flags }) && flags == FuseOpenIn::parse(body).flags
            },
            FuseOpcode::Read => if body.len() < 40 {
                r == Err::<FuseOp, i32>(EINVAL)
            } else {
                let p = FuseReadIn::parse(body);
                r matches Ok(FuseOp::Read { fh, offset, size }) && fh == p.fh && offset == p.offset
                    && size == (if p.size < MAX_READ_SIZE { p.size } else { MAX_READ_SIZE })
            },
            FuseOpcode::Write => if body.len() < 40 {
                r == Err::<FuseOp, i32>(EINVAL)
            } else {
                let p = FuseWriteIn::parse(body);
                let avail = body.len() - 40;
                let n = if p.size <= avail && p.size <= MAX_WRITE_SIZE { p.size as int }
                    else if avail <= MAX_WRITE_SIZE { avail } else { MAX_WRITE_SIZE as int };
                r matches Ok(FuseOp::Write { fh, offset, data }) && fh == p.fh && offset == p.offset
                    && data@ == body.subrange(40, 40 + n)
            },
            FuseOpcode::Release => if body.len() < 24 {
                r == Err::<FuseOp, i32>(EINVAL)
            } else {
                r matches Ok(FuseOp::Release { fh }) && fh == FuseReleaseIn::parse(body).fh
            },
            FuseOpcode::Releasedir => if body.len() < 24 {
                r == Err::<FuseOp, i32>(EINVAL)
            } else {
                r matches Ok(FuseOp::Releasedir { fh }) && fh == FuseReleaseIn::parse(body).fh
            },
            FuseOpcode::Fsync => if body.len() < 16 {
                r == Err::<FuseOp, i32>(EINVAL)
            } else {
                let p = FuseFsyncIn::parse(body);
                r matches Ok(FuseOp::Fsync { fh, datasync }) && fh == p.fh && datasync == (p.fsync_flags & 1 != 0)
            },
            FuseOpcode::Readdir => if body.len() < 40 {
                r == Err::<FuseOp, i32>(EINVAL)
            } else {
                let p = FuseReadIn::parse(body);
                r matches Ok(FuseOp::Readdir { fh, offset, size }) && fh == p.fh && offset == p.offset && size == p.size
            },
            FuseOpcode::Create => if body.len() < 16 {
                r == Err::<FuseOp, i32>(EINVAL)
            } else {
                let c = FuseCreateIn::parse(body);
                match name_at(from(body, 16)) {
                    Some(n) => r matches Ok(FuseOp::Create { name, flags, mode })
                        && name@ == n && flags == c.flags && mode == c.mode & !c.umask,
                    None => r == Err::<FuseOp, i32>(EINVAL),
                }
            },
            FuseOpcode::Flush => if body.len() < 24 {
                r == Err::<FuseOp, i32>(EINVAL)
            } else {
                r matches Ok(FuseOp::Flush { fh }) && fh == FuseFlushIn::parse(body).fh
            },
            _ => false,
        }
    }
}

proof fn lemma_first_nul_in_range(s: Seq<u8>)
    ensures
        first_nul(s) matches Some(i) ==> 0 <= i < s.len() && s[i] == 0,
    decreases s.len(),
{
    if s.len() > 0 && s[0] != 0 {
        lemma_first_nul_in_range(s.drop_first());
    }
}

/// The zero-terminated name at the start of `data`, as an owned string.
fn name_at_exec(data: &[u8]) -> (r: Option<String>)
    ensures
        match name_at(data@) {
            Some(n) => r matches Some(s) && s@ == n,
            None => r is None,
        },
{
    match extract_name(data) {
        Some(s) => Some(owned(s)),
        None => None,
    }
}

/// The bytes after the first zero byte of `data`.
fn after_nul_exec(data: &[u8]) -> (r: &[u8])
    requires
        first_nul(data@) is Some,
    ensures
        r@ == after_nul(data@),
{
    let len = data.len();
    let ghost s = data@;
    proof {
        lemma_first_nul_in_range(s);
        assert(s.subrange(0, s.len() as int) =~= s);
    }
    let mut i: usize = 0;
    while i < len
        invariant
            len == s.len(),
            s == data@,
            i <= len,
            first_nul(s) is Some,
            first_nul(s) == match first_nul(s.subrange(i as int, s.len() as int)) {
                Some(m) => Some(m + i),
                None => None,
            },
        decreases len - i,
    {
        proof {
            let t = s.subrange(i as int, s.len() as int);
            assert(t.drop_first() =~= s.subrange(i + 1, s.len() as int));
            assert(t[0] == s[i as int]);
        }
        if data[i] == 0 {
            return vstd::slice::slice_subrange(data, i + 1, len);
        }
        i = i + 1;
    }
    proof {
        assert(s.subrange(i as int, s.len() as int) =~= Seq::<u8>::empty());
    }
    data
}

/// The bytes of `data` from position `n` on.
fn from_exec(data: &[u8], n: usize) -> (r: &[u8])
    requires
        n <= data@.len(),
    ensures
        r@ == from(data@, n as int),
{
    vstd::slice::slice_subrange(data, n, data.len())
}

/// The two zero-terminated names at the start of `data`, one after the other.
fn two_names(data: &[u8]) -> (r: Option<(String, String)>)
    ensures
        match (name_at(data@), name_at(after_nul(data@))) {
            (Some(a), Some(b)) => r matches Some(p) && p.0@ == a && p.1@ == b,
            _ => r is None,
        },
{
    let first = match name_at_exec(data) {
        Some(n) => n,
        None => return None,
    };
    let rest = after_nul_exec(data);
    match name_at_exec(rest) {
        Some(second) => Some((first, second)),
        None => None,
    }
}

/// Decodes the body of a request with opcode `op` into the operation the device performs,
/// or the errno it is refused with (see `decoded`).
#[verifier::rlimit(40)]
pub fn decode_op(op: FuseOpcode, body: &[u8], read_only: bool) -> (r: Result<FuseOp, i32>)
    ensures
        decoded(op, body@, read_only, r),
{
    let served = match op {
        FuseOpcode::Init | FuseOpcode::Destroy | FuseOpcode::Lookup | FuseOpcode::Forget
        | FuseOpcode::Getattr | FuseOpcode::Setattr | FuseOpcode::Readlink | FuseOpcode::Symlink
        | FuseOpcode::Mkdir | FuseOpcode::Unlink | FuseOpcode::Rmdir
        | FuseOpcode::Rename | FuseOpcode::Link | FuseOpcode::Open | FuseOpcode::Read
        | FuseOpcode::Write | FuseOpcode::Statfs | FuseOpcode::Release | FuseOpcode::Fsync
        | FuseOpcode::Opendir | FuseOpcode::Readdir | FuseOpcode::Releasedir | FuseOpcode::Fsyncdir
        | FuseOpcode::Access | FuseOpcode::Create | FuseOpcode::Flush => true,
        _ => false,
    };
    if !served {
        return Err(ENOSYS);
    }
    let changes = match op {
        FuseOpcode::Setattr | FuseOpcode::Symlink | FuseOpcode::Mkdir | FuseOpcode::Unlink
        | FuseOpcode::Rmdir | FuseOpcode::Rename | FuseOpcode::Link | FuseOpcode::Write
        | FuseOpcode::Create => true,
        _ => false,
    };
    if read_only && changes {
        return Err(EROFS);
    }
    match op {
        FuseOpcode::Init => Ok(FuseOp::Init),
        FuseOpcode::Destroy => Ok(FuseOp::Destroy),
        FuseOpcode::Getattr => Ok(FuseOp::Getattr),
        FuseOpcode::Readlink => Ok(FuseOp::Readlink),
        FuseOpcode::Statfs => Ok(FuseOp::Statfs),
        FuseOpcode::Opendir => Ok(FuseOp::Opendir),
        FuseOpcode::Fsyncdir => Ok(FuseOp::Fsyncdir),
        FuseOpcode::Access => Ok(FuseOp::Access),
        FuseOpcode::Lookup => match name_at_exec(body) {
            Some(name) => Ok(FuseOp::Lookup { name }),
            None => Err(EINVAL),
        },
        FuseOpcode::Unlink => match name_at_exec(body) {
            Some(name) => Ok(FuseOp::Unlink { name }),
            None => Err(EINVAL),
        },
        FuseOpcode::Rmdir => match name_at_exec(body) {
            Some(name) => Ok(FuseOp::Rmdir { name }),
            None => Err(EINVAL),
        },
        FuseOpcode::Forget => {
            let nlookup = match FuseForgetIn::from_bytes(body) {
                Some(f) => Some(f.nlookup),
                None => None,
            };
            Ok(FuseOp::Forget { nlookup })
        },
        FuseOpcode::Setattr => match FuseSetattrIn::from_bytes(body) {
            Some(s) => Ok(FuseOp::Setattr(s)),
            None => Err(EINVAL),
        },
        FuseOpcode::Symlink => match two_names(body) {
            Some((name, target)) => Ok(FuseOp::Symlink { name, target }),
            None => Err(EINVAL),
        },
        FuseOpcode::Mkdir => match FuseMkdirIn::from_bytes(body) {
            None => Err(EINVAL),
            Some(m) => match name_at_exec(from_exec(body, 8)) {
                Some(name) => Ok(FuseOp::Mkdir { name, mode: m.mode & !m.umask }),
                None => Err(EINVAL),
            },
        },
        FuseOpcode::Rename => match FuseRenameIn::from_bytes(body) {
            None => Err(EINVAL),
            Some(rn) => match two_names(from_exec(body, 8)) {
                Some((old_name, new_name)) => Ok(FuseOp::Rename { newdir: rn.newdir, old_name, new_name }),
                None => Err(EINVAL),
            },
        },
        FuseOpcode::Link => match FuseLinkIn::from_bytes(body) {
            None => Err(EINVAL),
            Some(l) => match name_at_exec(from_exec(body, 8)) {
                Some(name) => Ok(FuseOp::Link { oldnodeid: l.oldnodeid, name }),
                None => Err(EINVAL),
            },
        },
        FuseOpcode::Open => match FuseOpenIn::from_bytes(body) {
            Some(o) => Ok(FuseOp::Open { flags: o.flags }),
            None => Err(EINVAL),
        },
        FuseOpcode::Read => match FuseReadIn::from_bytes(body) {
            Some(p) => {
                let size = if p.size < MAX_READ_SIZE { p.size } else { MAX_READ_SIZE };
                Ok(FuseOp::Read { fh: p.fh, offset: p.offset, size })
            },
            None => Err(EINVAL),
        },
        FuseOpcode::Write => match FuseWriteIn::from_bytes(body) {
            Some(p) => {
                let avail = body.len() - 40;
                let n: usize = if (p.size as usize) <= avail && p.size <= MAX_WRITE_SIZE {
                    p.size as usize
                } else if avail <= MAX_WRITE_SIZE as usize {
                    avail
                } else {
                    MAX_WRITE_SIZE as usize
                };
                let data = copy_range(body, 40, n);
                Ok(FuseOp::Write { fh: p.fh, offset: p.offset, data })
            },
            None => Err(EINVAL),
        },
        FuseOpcode::Release => match FuseReleaseIn::from_bytes(body) {
            Some(p) => Ok(FuseOp::Release { fh: p.fh }),
            None => Err(EINVAL),
        },
        FuseOpcode::Releasedir => match FuseReleaseIn::from_bytes(body) {
            Some(p) => Ok(FuseOp::Releasedir { fh: p.fh }),
            None => Err(EINVAL),
        },
        FuseOpcode::Fsync => match FuseFsyncIn::from_bytes(body) {
            Some(p) => Ok(FuseOp::Fsync { fh: p.fh, datasync: p.fsync_flags & 1 != 0 }),
            None => Err(EINVAL),
        },
        FuseOpcode::Readdir => match FuseReadIn::from_bytes(body) {
            Some(p) => Ok(FuseOp::Readdir { fh: p.fh, offset: p.offset, size: p.size }),
            None => Err(EINVAL),
        },
        FuseOpcode::Create => match FuseCreateIn::from_bytes(body) {
            None => Err(EINVAL),
            Some(c) => match name_at_exec(from_exec(body, 16)) {
                Some(name) => Ok(FuseOp::Create { name, flags: c.flags, mode: c.mode & !c.umask }),
                None => Err(EINVAL),
            },
        },
        FuseOpcode::Flush => match FuseFlushIn::from_bytes(body) {
            Some(p) => Ok(FuseOp::Flush { fh: p.fh }),
            None => Err(EINVAL),
        },
        _ => Err(ENOSYS),
    }
}

/// A successful reply to request `unique` carrying `payload`.
pub open spec fn ok_reply(unique: u64, payload: Seq<u8>) -> Seq<u8> {
    (FuseOutHeader { len: (16 + payload.len()) as u32, error: 0, unique }).spec_bytes() + payload
}

/// The entry answered for inode `ino` with attributes `attr`: entry and attributes valid
/// for one second, generation 0.
pub open spec fn entry_out(ino: u64, attr: FuseAttr) -> FuseEntryOut {
    FuseEntryOut {
        nodeid: ino,
        generation: 0,
        entry_valid: 1,
        attr_valid: 1,
        entry_valid_nsec: 0,
        attr_valid_nsec: 0,
        attr,
    }
}

/// The open answer for handle `fh`: the guest may keep its page cache for files, not for
/// directories.
pub open spec fn open_out(fh: u64, keep_cache: bool) -> FuseOpenOut {
    FuseOpenOut { fh, open_flags: if keep_cache { FOPEN_KEEP_CACHE } else { 0 }, padding: 0 }
}

/// Reply to LOOKUP, MKDIR, SYMLINK and LINK: the entry of inode `ino`.
pub fn entry_reply(unique: u64, ino: u64, attr: FuseAttr) -> (r: Vec<u8>)
    ensures
        r@ == ok_reply(unique, entry_out(ino, attr).spec_bytes()),
        r@.len() == 16 + 128,
{
    proof {
        crate::wire::lemma_le_roundtrip();
    }
    let out = FuseEntryOut {
        nodeid: ino,
        generation: 0,
        entry_valid: 1,
        attr_valid: 1,
        entry_valid_nsec: 0,
        attr_valid_nsec: 0,
        attr,
    };
    let b = out.to_bytes();
    success_response(unique, b.as_slice())
}

/// Reply to GETATTR and SETATTR: the attributes, valid for one second.
pub fn attr_reply(unique: u64, attr: FuseAttr) -> (r: Vec<u8>)
    ensures
        r@ == ok_reply(unique, (FuseAttrOut { attr_valid: 1, attr_valid_nsec: 0, dummy: 0, attr }).spec_bytes()),
        r@.len() == 16 + 104,
{
    proof {
        crate::wire::lemma_le_roundtrip();
    }
    let out = FuseAttrOut { attr_valid: 1, attr_valid_nsec: 0, dummy: 0, attr };
    let b = out.to_bytes();
    success_response(unique, b.as_slice())
}

/// Reply to OPEN (`keep_cache`) and OPENDIR: the new handle.
pub fn open_reply(unique: u64, fh: u64, keep_cache: bool) -> (r: Vec<u8>)
    ensures
        r@ == ok_reply(unique, open_out(fh, keep_cache).spec_bytes()),
        r@.len() == 16 + 16,
{
    proof {
        crate::wire::lemma_le_roundtrip();
    }
    let out = FuseOpenOut { fh, open_flags: if keep_cache { FOPEN_KEEP_CACHE } else { 0 }, padding: 0 };
    let b = out.to_bytes();
    success_response(unique, b.as_slice())
}

/// Reply to CREATE: the new entry, then the open handle (page cache kept).
pub fn create_reply(unique: u64, ino: u64, attr: FuseAttr, fh: u64) -> (r: Vec<u8>)
    ensures
        r@ == ok_reply(unique, entry_out(ino, attr).spec_bytes() + open_out(fh, true).spec_bytes()),
        r@.len() == 16 + 128 + 16,
{
    proof {
        crate::wire::lemma_le_roundtrip();
    }
    let entry = FuseEntryOut {
        nodeid: ino,
        generation: 0,
        entry_valid: 1,
        attr_valid: 1,
        entry_valid_nsec: 0,
        attr_valid_nsec: 0,
        attr,
    };
    let open = FuseOpenOut { fh, open_flags: FOPEN_KEEP_CACHE, padding: 0 };
    let mut buf = entry.to_bytes();
    let ob = open.to_bytes();
    crate::wire::put_bytes(&mut buf, ob.as_slice());
    success_response(unique, buf.as_slice())
}

/// Reply to WRITE: how many bytes were written.
pub fn write_reply(unique: u64, size: u32) -> (r: Vec<u8>)
    ensures
        r@ == ok_reply(unique, (FuseWriteOut { size, padding: 0 }).spec_bytes()),
        r@.len() == 16 + 8,
{
    proof {
        crate::wire::lemma_le_roundtrip();
    }
    let out = FuseWriteOut { size, padding: 0 };
    let b = out.to_bytes();
    success_response(unique, b.as_slice())
}

} // verus!
