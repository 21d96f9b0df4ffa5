//! FUSE kernel protocol messages (`include/uapi/linux/fuse.h`): parsing of requests and
//! little-endian encoding of replies.
use vstd::prelude::*;
use crate::wire::{copy_range, 
    bytes16, bytes32, bytes64, le16, le32, le64, lemma_le_roundtrip, lemma_read_back_32,
    lemma_read_back_64, put_bytes, put_u16, put_u32, put_u64, put_zeros, read_u16, read_u32,
    read_u64, zeros,
};

verus! {

pub const FUSE_KERNEL_VERSION: u32 = 7;
pub const FUSE_KERNEL_MINOR_VERSION: u32 = 31;

/// FUSE request opcodes.
#[derive(Debug, Clone, Copy, PartialEq, Eq)]
pub enum FuseOpcode {
    Lookup,
    Forget,
    Getattr,
    Setattr,
    Readlink,
    Symlink,
    Mknod,
    Mkdir,
    Unlink,
    Rmdir,
    Rename,
    Link,
    Open,
    Read,
    Write,
    Statfs,
    Release,
    Fsync,
    Setxattr,
    Getxattr,
    Listxattr,
    Removexattr,
    Flush,
    Init,
    Opendir,
    Readdir,
    Releasedir,
    Fsyncdir,
    Getlk,
    Setlk,
    Setlkw,
    Access,
    Create,
    Interrupt,
    Bmap,
    Destroy,
    Ioctl,
    Poll,
    NotifyReply,
    BatchForget,
    Fallocate,
    Readdirplus,
    Rename2,
    Lseek,
    CopyFileRange,
    SetupMapping,
    RemoveMapping,
}

/// The numeric opcode of each request kind on the wire.
pub open spec fn opcode_number(op: FuseOpcode) -> u32 {
    match op {
        FuseOpcode::Lookup => 1,
        FuseOpcode::Forget => 2,
        FuseOpcode::Getattr => 3,
        FuseOpcode::Setattr => 4,
        FuseOpcode::Readlink => 5,
        FuseOpcode::Symlink => 6,
        FuseOpcode::Mknod => 8,
        FuseOpcode::Mkdir => 9,
        FuseOpcode::Unlink => 10,
        FuseOpcode::Rmdir => 11,
        FuseOpcode::Rename => 12,
        FuseOpcode::Link => 13,
        FuseOpcode::Open => 14,
        FuseOpcode::Read => 15,
        FuseOpcode::Write => 16,
        FuseOpcode::Statfs => 17,
        FuseOpcode::Release => 18,
        FuseOpcode::Fsync => 20,
        FuseOpcode::Setxattr => 21,
        FuseOpcode::Getxattr => 22,
        FuseOpcode::Listxattr => 23,
        FuseOpcode::Removexattr => 24,
        FuseOpcode::Flush => 25,
        FuseOpcode::Init => 26,
        FuseOpcode::Opendir => 27,
        FuseOpcode::Readdir => 28,
        FuseOpcode::Releasedir => 29,
        FuseOpcode::Fsyncdir => 30,
        FuseOpcode::Getlk => 31,
        FuseOpcode::Setlk => 32,
        FuseOpcode::Setlkw => 33,
        FuseOpcode::Access => 34,
        FuseOpcode::Create => 35,
        FuseOpcode::Interrupt => 36,
        FuseOpcode::Bmap => 37,
        FuseOpcode::Destroy => 38,
        FuseOpcode::Ioctl => 39,
        FuseOpcode::Poll => 40,
        FuseOpcode::NotifyReply => 41,
        FuseOpcode::BatchForget => 42,
        FuseOpcode::Fallocate => 43,
        FuseOpcode::Readdirplus => 44,
        FuseOpcode::Rename2 => 45,
        FuseOpcode::Lseek => 46,
        FuseOpcode::CopyFileRange => 47,
        FuseOpcode::SetupMapping => 48,
        FuseOpcode::RemoveMapping => 49,
    }
}

/// Whether `v` is the number of some opcode (1 to 49, except 7 and 19).
pub open spec fn is_opcode_number(v: u32) -> bool {
    1 <= v <= 49 && v != 7 && v != 19
}

impl FuseOpcode {
    /// The opcode's number on the wire.
    pub fn number(self) -> (r: u32)
        ensures
            r == opcode_number(self),
    {
        match self {
            FuseOpcode::Lookup => 1,
            FuseOpcode::Forget => 2,
            FuseOpcode::Getattr => 3,
            FuseOpcode::Setattr => 4,
            FuseOpcode::Readlink => 5,
            FuseOpcode::Symlink => 6,
            FuseOpcode::Mknod => 8,
            FuseOpcode::Mkdir => 9,
            FuseOpcode::Unlink => 10,
            FuseOpcode::Rmdir => 11,
            FuseOpcode::Rename => 12,
            FuseOpcode::Link => 13,
            FuseOpcode::Open => 14,
            FuseOpcode::Read => 15,
            FuseOpcode::Write => 16,
            FuseOpcode::Statfs => 17,
            FuseOpcode::Release => 18,
            FuseOpcode::Fsync => 20,
            FuseOpcode::Setxattr => 21,
            FuseOpcode::Getxattr => 22,
            FuseOpcode::Listxattr => 23,
            FuseOpcode::Removexattr => 24,
            FuseOpcode::Flush => 25,
            FuseOpcode::Init => 26,
            FuseOpcode::Opendir => 27,
            FuseOpcode::Readdir => 28,
            FuseOpcode::Releasedir => 29,
            FuseOpcode::Fsyncdir => 30,
            FuseOpcode::Getlk => 31,
            FuseOpcode::Setlk => 32,
            FuseOpcode::Setlkw => 33,
            FuseOpcode::Access => 34,
            FuseOpcode::Create => 35,
            FuseOpcode::Interrupt => 36,
            FuseOpcode::Bmap => 37,
            FuseOpcode::Destroy => 38,
            FuseOpcode::Ioctl => 39,
            FuseOpcode::Poll => 40,
            FuseOpcode::NotifyReply => 41,
            FuseOpcode::BatchForget => 42,
            FuseOpcode::Fallocate => 43,
            FuseOpcode::Readdirplus => 44,
            FuseOpcode::Rename2 => 45,
            FuseOpcode::Lseek => 46,
            FuseOpcode::CopyFileRange => 47,
            FuseOpcode::SetupMapping => 48,
            FuseOpcode::RemoveMapping => 49,
        }
    }

    /// The opcode with number `value`; `Err(())` for numbers no opcode has.
    pub fn try_from(value: u32) -> (r: Result<FuseOpcode, ()>)
        ensures
            match r {
                Ok(op) => opcode_number(op) == value,
                Err(_) => !is_opcode_number(value),
            },
    {
        match value {
            1 => Ok(FuseOpcode::Lookup),
            2 => Ok(FuseOpcode::Forget),
            3 => Ok(FuseOpcode::Getattr),
            4 => Ok(FuseOpcode::Setattr),
            5 => Ok(FuseOpcode::Readlink),
            6 => Ok(FuseOpcode::Symlink),
            8 => Ok(FuseOpcode::Mknod),
            9 => Ok(FuseOpcode::Mkdir),
            10 => Ok(FuseOpcode::Unlink),
            11 => Ok(FuseOpcode::Rmdir),
            12 => Ok(FuseOpcode::Rename),
            13 => Ok(FuseOpcode::Link),
            14 => Ok(FuseOpcode::Open),
            15 => Ok(FuseOpcode::Read),
            16 => Ok(FuseOpcode::Write),
            17 => Ok(FuseOpcode::Statfs),
            18 => Ok(FuseOpcode::Release),
            20 => Ok(FuseOpcode::Fsync),
            21 => Ok(FuseOpcode::Setxattr),
            22 => Ok(FuseOpcode::Getxattr),
            23 => Ok(FuseOpcode::Listxattr),
            24 => Ok(FuseOpcode::Removexattr),
            25 => Ok(FuseOpcode::Flush),
            26 => Ok(FuseOpcode::Init),
            27 => Ok(FuseOpcode::Opendir),
            28 => Ok(FuseOpcode::Readdir),
            29 => Ok(FuseOpcode::Releasedir),
            30 => Ok(FuseOpcode::Fsyncdir),
            31 => Ok(FuseOpcode::Getlk),
            32 => Ok(FuseOpcode::Setlk),
            33 => Ok(FuseOpcode::Setlkw),
            34 => Ok(FuseOpcode::Access),
            35 => Ok(FuseOpcode::Create),
            36 => Ok(FuseOpcode::Interrupt),
            37 => Ok(FuseOpcode::Bmap),
            38 => Ok(FuseOpcode::Destroy),
            39 => Ok(FuseOpcode::Ioctl),
            40 => Ok(FuseOpcode::Poll),
            41 => Ok(FuseOpcode::NotifyReply),
            42 => Ok(FuseOpcode::BatchForget),
            43 => Ok(FuseOpcode::Fallocate),
            44 => Ok(FuseOpcode::Readdirplus),
            45 => Ok(FuseOpcode::Rename2),
            46 => Ok(FuseOpcode::Lseek),
            47 => Ok(FuseOpcode::CopyFileRange),
            48 => Ok(FuseOpcode::SetupMapping),
            49 => Ok(FuseOpcode::RemoveMapping),
            _ => Err(()),
        }
    }
}

/// Every opcode number names an opcode, and different opcodes have different numbers.
pub proof fn law_opcode_numbers(op: FuseOpcode, other: FuseOpcode)
    ensures
        is_opcode_number(opcode_number(op)),
        op != other ==> opcode_number(op) != opcode_number(other),
{
}

// Setattr valid flags
pub const FATTR_MODE: u32 = 1 << 0;
pub const FATTR_UID: u32 = 1 << 1;
pub const FATTR_GID: u32 = 1 << 2;
pub const FATTR_SIZE: u32 = 1 << 3;
pub const FATTR_ATIME: u32 = 1 << 4;
pub const FATTR_MTIME: u32 = 1 << 5;
pub const FATTR_FH: u32 = 1 << 6;
pub const FATTR_ATIME_NOW: u32 = 1 << 7;
pub const FATTR_MTIME_NOW: u32 = 1 << 8;
pub const FATTR_LOCKOWNER: u32 = 1 << 9;
pub const FATTR_CTIME: u32 = 1 << 10;

// FUSE init flags
pub const FUSE_ASYNC_READ: u32 = 1 << 0;
pub const FUSE_POSIX_LOCKS: u32 = 1 << 1;
pub const FUSE_FILE_OPS: u32 = 1 << 2;
pub const FUSE_ATOMIC_O_TRUNC: u32 = 1 << 3;
pub const FUSE_EXPORT_SUPPORT: u32 = 1 << 4;
pub const FUSE_BIG_WRITES: u32 = 1 << 5;
pub const FUSE_DONT_MASK: u32 = 1 << 6;
pub const FUSE_SPLICE_WRITE: u32 = 1 << 7;
pub const FUSE_SPLICE_MOVE: u32 = 1 << 8;
pub const FUSE_SPLICE_READ: u32 = 1 << 9;
pub const FUSE_FLOCK_LOCKS: u32 = 1 << 10;
pub const FUSE_HAS_IOCTL_DIR: u32 = 1 << 11;
pub const FUSE_AUTO_INVAL_DATA: u32 = 1 << 12;
pub const FUSE_DO_READDIRPLUS: u32 = 1 << 13;
pub const FUSE_READDIRPLUS_AUTO: u32 = 1 << 14;
pub const FUSE_ASYNC_DIO: u32 = 1 << 15;
pub const FUSE_WRITEBACK_CACHE: u32 = 1 << 16;
pub const FUSE_NO_OPEN_SUPPORT: u32 = 1 << 17;
pub const FUSE_PARALLEL_DIROPS: u32 = 1 << 18;
pub const FUSE_HANDLE_KILLPRIV: u32 = 1 << 19;
pub const FUSE_POSIX_ACL: u32 = 1 << 20;
pub const FUSE_ABORT_ERROR: u32 = 1 << 21;
pub const FUSE_MAX_PAGES: u32 = 1 << 22;
pub const FUSE_CACHE_SYMLINKS: u32 = 1 << 23;
pub const FUSE_NO_OPENDIR_SUPPORT: u32 = 1 << 24;
pub const FUSE_EXPLICIT_INVAL_DATA: u32 = 1 << 25;

// Open flags
pub const FOPEN_DIRECT_IO: u32 = 1 << 0;
pub const FOPEN_KEEP_CACHE: u32 = 1 << 1;
pub const FOPEN_NONSEEKABLE: u32 = 1 << 2;
pub const FOPEN_CACHE_DIR: u32 = 1 << 3;
pub const FOPEN_STREAM: u32 = 1 << 4;

/// Size in bytes of [`FuseInHeader`] on the wire.
pub const FUSE_IN_HEADER_SIZE: usize = 40;

/// FUSE request header (40 bytes).
#[derive(Clone, Copy, Debug, Default)]
pub struct FuseInHeader {
    pub len: u32,
    pub opcode: u32,
    pub unique: u64,
    pub nodeid: u64,
    pub uid: u32,
    pub gid: u32,
    pub pid: u32,
    pub padding: u32,
}

impl FuseInHeader {
    /// The value `from_bytes` reads from the first 40 bytes of `s`.
    pub open spec fn parse(s: Seq<u8>) -> FuseInHeader {
        FuseInHeader {
            len: le32(s, 0),
            opcode: le32(s, 4),
            unique: le64(s, 8),
            nodeid: le64(s, 16),
            uid: le32(s, 24),
            gid: le32(s, 28),
            pid: le32(s, 32),
            padding: le32(s, 36),
        }
    }

    /// Parses the first 40 bytes of `data`; `None` when it is shorter.
    pub fn from_bytes(data: &[u8]) -> (r: Option<FuseInHeader>)
        ensures
            r == (if data@.len() < 40 { None } else { Some(FuseInHeader::parse(data@)) }),
    {
        if data.len() < FUSE_IN_HEADER_SIZE {
            return None;
        }
        Some(FuseInHeader {
            len: read_u32(data, 0),
            opcode: read_u32(data, 4),
            unique: read_u64(data, 8),
            nodeid: read_u64(data, 16),
            uid: read_u32(data, 24),
            gid: read_u32(data, 28),
            pid: read_u32(data, 32),
            padding: read_u32(data, 36),
        })
    }
}

/// Size in bytes of [`FuseOutHeader`] on the wire.
pub const FUSE_OUT_HEADER_SIZE: usize = 16;

/// FUSE response header (16 bytes).
#[derive(Clone, Copy, Debug, Default)]
pub struct FuseOutHeader {
    pub len: u32,
    pub error: i32,
    pub unique: u64,
}

impl FuseOutHeader {
    /// The 16 bytes `to_bytes` writes.
    pub open spec fn spec_bytes(self) -> Seq<u8> {
        bytes32(self.len)
            + bytes32(self.error as u32)
            + bytes64(self.unique)
    }

    /// The little-endian wire encoding, 16 bytes.
    pub fn to_bytes(self) -> (r: Vec<u8>)
        ensures
            r@ == self.spec_bytes(),
            r@.len() == 16,
    {
        proof {
            lemma_le_roundtrip();
        }
        let mut buf: Vec<u8> = Vec::new();
        put_u32(&mut buf, self.len);
        put_u32(&mut buf, self.error as u32);
        put_u64(&mut buf, self.unique);
        buf
    }
}

/// Size in bytes of [`FuseAttr`] on the wire.
pub const FUSE_ATTR_SIZE: usize = 88;

/// File attributes (88 bytes).
#[derive(Clone, Copy, Debug, Default)]
pub struct FuseAttr {
    pub ino: u64,
    pub size: u64,
    pub blocks: u64,
    pub atime: u64,
    pub mtime: u64,
    pub ctime: u64,
    pub atimensec: u32,
    pub mtimensec: u32,
    pub ctimensec: u32,
    pub mode: u32,
    pub nlink: u32,
    pub uid: u32,
    pub gid: u32,
    pub rdev: u32,
    pub blksize: u32,
    pub padding: u32,
}

impl FuseAttr {
    /// The 88 bytes `to_bytes` writes.
    pub open spec fn spec_bytes(self) -> Seq<u8> {
        bytes64(self.ino)
            + bytes64(self.size)
            + bytes64(self.blocks)
            + bytes64(self.atime)
            + bytes64(self.mtime)
            + bytes64(self.ctime)
            + bytes32(self.atimensec)
            + bytes32(self.mtimensec)
            + bytes32(self.ctimensec)
            + bytes32(self.mode)
            + bytes32(self.nlink)
            + bytes32(self.uid)
            + bytes32(self.gid)
            + bytes32(self.rdev)
            + bytes32(self.blksize)
            + bytes32(self.padding)
    }

    /// The little-endian wire encoding, 88 bytes.
    pub fn to_bytes(self) -> (r: Vec<u8>)
        ensures
            r@ == self.spec_bytes(),
            r@.len() == 88,
    {
        proof {
            lemma_le_roundtrip();
        }
        let mut buf: Vec<u8> = Vec::new();
        put_u64(&mut buf, self.ino);
        put_u64(&mut buf, self.size);
        put_u64(&mut buf, self.blocks);
        put_u64(&mut buf, self.atime);
        put_u64(&mut buf, self.mtime);
        put_u64(&mut buf, self.ctime);
        put_u32(&mut buf, self.atimensec);
        put_u32(&mut buf, self.mtimensec);
        put_u32(&mut buf, self.ctimensec);
        put_u32(&mut buf, self.mode);
        put_u32(&mut buf, self.nlink);
        put_u32(&mut buf, self.uid);
        put_u32(&mut buf, self.gid);
        put_u32(&mut buf, self.rdev);
        put_u32(&mut buf, self.blksize);
        put_u32(&mut buf, self.padding);
        buf
    }
}

/// Size in bytes of [`FuseEntryOut`] on the wire.
pub const FUSE_ENTRY_OUT_SIZE: usize = 128;

/// Entry response (lookup, create, ...).
#[derive(Clone, Copy, Debug, Default)]
pub struct FuseEntryOut {
    pub nodeid: u64,
    pub generation: u64,
    pub entry_valid: u64,
    pub attr_valid: u64,
    pub entry_valid_nsec: u32,
    pub attr_valid_nsec: u32,
    pub attr: FuseAttr,
}

impl FuseEntryOut {
    /// The 128 bytes `to_bytes` writes.
    pub open spec fn spec_bytes(self) -> Seq<u8> {
        bytes64(self.nodeid)
            + bytes64(self.generation)
            + bytes64(self.entry_valid)
            + bytes64(self.attr_valid)
            + bytes32(self.entry_valid_nsec)
            + bytes32(self.attr_valid_nsec)
            + self.attr.spec_bytes()
    }

    /// The little-endian wire encoding, 128 bytes.
    pub fn to_bytes(self) -> (r: Vec<u8>)
        ensures
            r@ == self.spec_bytes(),
            r@.len() == 128,
    {
        proof {
            lemma_le_roundtrip();
        }
        let mut buf: Vec<u8> = Vec::new();
        put_u64(&mut buf, self.nodeid);
        put_u64(&mut buf, self.generation);
        put_u64(&mut buf, self.entry_valid);
        put_u64(&mut buf, self.attr_valid);
        put_u32(&mut buf, self.entry_valid_nsec);
        put_u32(&mut buf, self.attr_valid_nsec);
        let sub = self.attr.to_bytes();
        put_bytes(&mut buf, sub.as_slice());
        buf
    }
}

/// Size in bytes of [`FuseGetattrIn`] on the wire.
pub const FUSE_GETATTR_IN_SIZE: usize = 16;

/// Getattr input.
#[derive(Clone, Copy, Debug, Default)]
pub struct FuseGetattrIn {
    pub getattr_flags: u32,
    pub dummy: u32,
    pub fh: u64,
}

impl FuseGetattrIn {
    /// The value `from_bytes` reads from the first 16 bytes of `s`.
    pub open spec fn parse(s: Seq<u8>) -> FuseGetattrIn {
        FuseGetattrIn {
            getattr_flags: le32(s, 0),
            dummy: le32(s, 4),
            fh: le64(s, 8),
        }
    }

    /// Parses the first 16 bytes of `data`; `None` when it is shorter.
    pub fn from_bytes(data: &[u8]) -> (r: Option<FuseGetattrIn>)
        ensures
            r == (if data@.len() < 16 { None } else { Some(FuseGetattrIn::parse(data@)) }),
    {
        if data.len() < FUSE_GETATTR_IN_SIZE {
            return None;
        }
        Some(FuseGetattrIn {
            getattr_flags: read_u32(data, 0),
            dummy: read_u32(data, 4),
            fh: read_u64(data, 8),
        })
    }
}

/// Size in bytes of [`FuseAttrOut`] on the wire.
pub const FUSE_ATTR_OUT_SIZE: usize = 104;

/// Getattr output.
#[derive(Clone, Copy, Debug, Default)]
pub struct FuseAttrOut {
    pub attr_valid: u64,
    pub attr_valid_nsec: u32,
    pub dummy: u32,
    pub attr: FuseAttr,
}

impl FuseAttrOut {
    /// The 104 bytes `to_bytes` writes.
    pub open spec fn spec_bytes(self) -> Seq<u8> {
        bytes64(self.attr_valid)
            + bytes32(self.attr_valid_nsec)
            + bytes32(self.dummy)
            + self.attr.spec_bytes()
    }

    /// The little-endian wire encoding, 104 bytes.
    pub fn to_bytes(self) -> (r: Vec<u8>)
        ensures
            r@ == self.spec_bytes(),
            r@.len() == 104,
    {
        proof {
            lemma_le_roundtrip();
        }
        let mut buf: Vec<u8> = Vec::new();
        put_u64(&mut buf, self.attr_valid);
        put_u32(&mut buf, self.attr_valid_nsec);
        put_u32(&mut buf, self.dummy);
        let sub = self.attr.to_bytes();
        put_bytes(&mut buf, sub.as_slice());
        buf
    }
}

/// Size in bytes of [`FuseSetattrIn`] on the wire.
pub const FUSE_SETATTR_IN_SIZE: usize = 88;

/// Setattr input.
#[derive(Clone, Copy, Debug, Default)]
pub struct FuseSetattrIn {
    pub valid: u32,
    pub padding: u32,
    pub fh: u64,
    pub size: u64,
    pub lock_owner: u64,
    pub atime: u64,
    pub mtime: u64,
    pub ctime: u64,
    pub atimensec: u32,
    pub mtimensec: u32,
    pub ctimensec: u32,
    pub mode: u32,
    pub unused4: u32,
    pub uid: u32,
    pub gid: u32,
    pub unused5: u32,
}

impl FuseSetattrIn {
    /// The value `from_bytes` reads from the first 88 bytes of `s`.
    pub open spec fn parse(s: Seq<u8>) -> FuseSetattrIn {
        FuseSetattrIn {
            valid: le32(s, 0),
            padding: le32(s, 4),
            fh: le64(s, 8),
            size: le64(s, 16),
            lock_owner: le64(s, 24),
            atime: le64(s, 32),
            mtime: le64(s, 40),
            ctime: le64(s, 48),
            atimensec: le32(s, 56),
            mtimensec: le32(s, 60),
            ctimensec: le32(s, 64),
            mode: le32(s, 68),
            unused4: le32(s, 72),
            uid: le32(s, 76),
            gid: le32(s, 80),
            unused5: le32(s, 84),
        }
    }

    /// Parses the first 88 bytes of `data`; `None` when it is shorter.
    pub fn from_bytes(data: &[u8]) -> (r: Option<FuseSetattrIn>)
        ensures
            r == (if data@.len() < 88 { None } else { Some(FuseSetattrIn::parse(data@)) }),
    {
        if data.len() < FUSE_SETATTR_IN_SIZE {
            return None;
        }
        Some(FuseSetattrIn {
            valid: read_u32(data, 0),
            padding: read_u32(data, 4),
            fh: read_u64(data, 8),
            size: read_u64(data, 16),
            lock_owner: read_u64(data, 24),
            atime: read_u64(data, 32),
            mtime: read_u64(data, 40),
            ctime: read_u64(data, 48),
            atimensec: read_u32(data, 56),
            mtimensec: read_u32(data, 60),
            ctimensec: read_u32(data, 64),
            mode: read_u32(data, 68),
            unused4: read_u32(data, 72),
            uid: read_u32(data, 76),
            gid: read_u32(data, 80),
            unused5: read_u32(data, 84),
        })
    }
}

/// Size in bytes of [`FuseInitIn`] on the wire.
pub const FUSE_INIT_IN_SIZE: usize = 16;

/// Init input.
#[derive(Clone, Copy, Debug, Default)]
pub struct FuseInitIn {
    pub major: u32,
    pub minor: u32,
    pub max_readahead: u32,
    pub flags: u32,
}

impl FuseInitIn {
    /// The value `from_bytes` reads from the first 16 bytes of `s`.
    pub open spec fn parse(s: Seq<u8>) -> FuseInitIn {
        FuseInitIn {
            major: le32(s, 0),
            minor: le32(s, 4),
            max_readahead: le32(s, 8),
            flags: le32(s, 12),
        }
    }

    /// Parses the first 16 bytes of `data`; `None` when it is shorter.
    pub fn from_bytes(data: &[u8]) -> (r: Option<FuseInitIn>)
        ensures
            r == (if data@.len() < 16 { None } else { Some(FuseInitIn::parse(data@)) }),
    {
        if data.len() < FUSE_INIT_IN_SIZE {
            return None;
        }
        Some(FuseInitIn {
            major: read_u32(data, 0),
            minor: read_u32(data, 4),
            max_readahead: read_u32(data, 8),
            flags: read_u32(data, 12),
        })
    }
}

/// Size in bytes of [`FuseInitOut`] on the wire.
pub const FUSE_INIT_OUT_SIZE: usize = 64;

/// Init output (64 bytes; the unused words are written as zeros).
#[derive(Clone, Copy, Debug, Default)]
pub struct FuseInitOut {
    pub major: u32,
    pub minor: u32,
    pub max_readahead: u32,
    pub flags: u32,
    pub max_background: u16,
    pub congestion_threshold: u16,
    pub max_write: u32,
    pub time_gran: u32,
    pub max_pages: u16,
    pub map_alignment: u16,
    pub unused: [u32; 8],
}

impl FuseInitOut {
    /// The 64 bytes `to_bytes` writes.
    pub open spec fn spec_bytes(self) -> Seq<u8> {
        bytes32(self.major)
            + bytes32(self.minor)
            + bytes32(self.max_readahead)
            + bytes32(self.flags)
            + bytes16(self.max_background)
            + bytes16(self.congestion_threshold)
            + bytes32(self.max_write)
            + bytes32(self.time_gran)
            + bytes16(self.max_pages)
            + bytes16(self.map_alignment)
            + zeros(32)
    }

    /// The little-endian wire encoding, 64 bytes.
    pub fn to_bytes(self) -> (r: Vec<u8>)
        ensures
            r@ == self.spec_bytes(),
            r@.len() == 64,
    {
        proof {
            lemma_le_roundtrip();
        }
        let mut buf: Vec<u8> = Vec::new();
        put_u32(&mut buf, self.major);
        put_u32(&mut buf, self.minor);
        put_u32(&mut buf, self.max_readahead);
        put_u32(&mut buf, self.flags);
        put_u16(&mut buf, self.max_background);
        put_u16(&mut buf, self.congestion_threshold);
        put_u32(&mut buf, self.max_write);
        put_u32(&mut buf, self.time_gran);
        put_u16(&mut buf, self.max_pages);
        put_u16(&mut buf, self.map_alignment);
        put_zeros(&mut buf, 32);
        buf
    }
}

/// Size in bytes of [`FuseForgetIn`] on the wire.
pub const FUSE_FORGET_IN_SIZE: usize = 8;

/// Forget input.
#[derive(Clone, Copy, Debug, Default)]
pub struct FuseForgetIn {
    pub nlookup: u64,
}

impl FuseForgetIn {
    /// The value `from_bytes` reads from the first 8 bytes of `s`.
    pub open spec fn parse(s: Seq<u8>) -> FuseForgetIn {
        FuseForgetIn {
            nlookup: le64(s, 0),
        }
    }

    /// Parses the first 8 bytes of `data`; `None` when it is shorter.
    pub fn from_bytes(data: &[u8]) -> (r: Option<FuseForgetIn>)
        ensures
            r == (if data@.len() < 8 { None } else { Some(FuseForgetIn::parse(data@)) }),
    {
        if data.len() < FUSE_FORGET_IN_SIZE {
            return None;
        }
        Some(FuseForgetIn {
            nlookup: read_u64(data, 0),
        })
    }
}

/// Size in bytes of [`FuseOpenIn`] on the wire.
pub const FUSE_OPEN_IN_SIZE: usize = 8;

/// Open input.
#[derive(Clone, Copy, Debug, Default)]
pub struct FuseOpenIn {
    pub flags: u32,
    pub unused: u32,
}

impl FuseOpenIn {
    /// The value `from_bytes` reads from the first 8 bytes of `s`.
    pub open spec fn parse(s: Seq<u8>) -> FuseOpenIn {
        FuseOpenIn {
            flags: le32(s, 0),
            unused: le32(s, 4),
        }
    }

    /// Parses the first 8 bytes of `data`; `None` when it is shorter.
    pub fn from_bytes(data: &[u8]) -> (r: Option<FuseOpenIn>)
        ensures
            r == (if data@.len() < 8 { None } else { Some(FuseOpenIn::parse(data@)) }),
    {
        if data.len() < FUSE_OPEN_IN_SIZE {
            return None;
        }
        Some(FuseOpenIn {
            flags: read_u32(data, 0),
            unused: read_u32(data, 4),
        })
    }
}

/// Size in bytes of [`FuseOpenOut`] on the wire.
pub const FUSE_OPEN_OUT_SIZE: usize = 16;

/// Open output.
#[derive(Clone, Copy, Debug, Default)]
pub struct FuseOpenOut {
    pub fh: u64,
    pub open_flags: u32,
    pub padding: u32,
}

impl FuseOpenOut {
    /// The 16 bytes `to_bytes` writes.
    pub open spec fn spec_bytes(self) -> Seq<u8> {
        bytes64(self.fh)
            + bytes32(self.open_flags)
            + bytes32(self.padding)
    }

    /// The little-endian wire encoding, 16 bytes.
    pub fn to_bytes(self) -> (r: Vec<u8>)
        ensures
            r@ == self.spec_bytes(),
            r@.len() == 16,
    {
        proof {
            lemma_le_roundtrip();
        }
        let mut buf: Vec<u8> = Vec::new();
        put_u64(&mut buf, self.fh);
        put_u32(&mut buf, self.open_flags);
        put_u32(&mut buf, self.padding);
        buf
    }
}

/// Size in bytes of [`FuseReadIn`] on the wire.
pub const FUSE_READ_IN_SIZE: usize = 40;

/// Read input.
#[derive(Clone, Copy, Debug, Default)]
pub struct FuseReadIn {
    pub fh: u64,
    pub offset: u64,
    pub size: u32,
    pub read_flags: u32,
    pub lock_owner: u64,
    pub flags: u32,
    pub padding: u32,
}

impl FuseReadIn {
    /// The value `from_bytes` reads from the first 40 bytes of `s`.
    pub open spec fn parse(s: Seq<u8>) -> FuseReadIn {
        FuseReadIn {
            fh: le64(s, 0),
            offset: le64(s, 8),
            size: le32(s, 16),
            read_flags: le32(s, 20),
            lock_owner: le64(s, 24),
            flags: le32(s, 32),
            padding: le32(s, 36),
        }
    }

    /// Parses the first 40 bytes of `data`; `None` when it is shorter.
    pub fn from_bytes(data: &[u8]) -> (r: Option<FuseReadIn>)
        ensures
            r == (if data@.len() < 40 { None } else { Some(FuseReadIn::parse(data@)) }),
    {
        if data.len() < FUSE_READ_IN_SIZE {
            return None;
        }
        Some(FuseReadIn {
            fh: read_u64(data, 0),
            offset: read_u64(data, 8),
            size: read_u32(data, 16),
            read_flags: read_u32(data, 20),
            lock_owner: read_u64(data, 24),
            flags: read_u32(data, 32),
            padding: read_u32(data, 36),
        })
    }
}

/// Size in bytes of [`FuseWriteIn`] on the wire.
pub const FUSE_WRITE_IN_SIZE: usize = 40;

/// Write input.
#[derive(Clone, Copy, Debug, Default)]
pub struct FuseWriteIn {
    pub fh: u64,
    pub offset: u64,
    pub size: u32,
    pub write_flags: u32,
    pub lock_owner: u64,
    pub flags: u32,
    pub padding: u32,
}

impl FuseWriteIn {
    /// The value `from_bytes` reads from the first 40 bytes of `s`.
    pub open spec fn parse(s: Seq<u8>) -> FuseWriteIn {
        FuseWriteIn {
            fh: le64(s, 0),
            offset: le64(s, 8),
            size: le32(s, 16),
            write_flags: le32(s, 20),
            lock_owner: le64(s, 24),
            flags: le32(s, 32),
            padding: le32(s, 36),
        }
    }

    /// Parses the first 40 bytes of `data`; `None` when it is shorter.
    pub fn from_bytes(data: &[u8]) -> (r: Option<FuseWriteIn>)
        ensures
            r == (if data@.len() < 40 { None } else { Some(FuseWriteIn::parse(data@)) }),
    {
        if data.len() < FUSE_WRITE_IN_SIZE {
            return None;
        }
        Some(FuseWriteIn {
            fh: read_u64(data, 0),
            offset: read_u64(data, 8),
            size: read_u32(data, 16),
            write_flags: read_u32(data, 20),
            lock_owner: read_u64(data, 24),
            flags: read_u32(data, 32),
            padding: read_u32(data, 36),
        })
    }
}

/// Size in bytes of [`FuseWriteOut`] on the wire.
pub const FUSE_WRITE_OUT_SIZE: usize = 8;

/// Write output.
#[derive(Clone, Copy, Debug, Default)]
pub struct FuseWriteOut {
    pub size: u32,
    pub padding: u32,
}

impl FuseWriteOut {
    /// The 8 bytes `to_bytes` writes.
    pub open spec fn spec_bytes(self) -> Seq<u8> {
        bytes32(self.size)
            + bytes32(self.padding)
    }

    /// The little-endian wire encoding, 8 bytes.
    pub fn to_bytes(self) -> (r: Vec<u8>)
        ensures
            r@ == self.spec_bytes(),
            r@.len() == 8,
    {
        proof {
            lemma_le_roundtrip();
        }
        let mut buf: Vec<u8> = Vec::new();
        put_u32(&mut buf, self.size);
        put_u32(&mut buf, self.padding);
        buf
    }
}

/// Size in bytes of [`FuseReleaseIn`] on the wire.
pub const FUSE_RELEASE_IN_SIZE: usize = 24;

/// Release input.
#[derive(Clone, Copy, Debug, Default)]
pub struct FuseReleaseIn {
    pub fh: u64,
    pub flags: u32,
    pub release_flags: u32,
    pub lock_owner: u64,
}

impl FuseReleaseIn {
    /// The value `from_bytes` reads from the first 24 bytes of `s`.
    pub open spec fn parse(s: Seq<u8>) -> FuseReleaseIn {
        FuseReleaseIn {
            fh: le64(s, 0),
            flags: le32(s, 8),
            release_flags: le32(s, 12),
            lock_owner: le64(s, 16),
        }
    }

    /// Parses the first 24 bytes of `data`; `None` when it is shorter.
    pub fn from_bytes(data: &[u8]) -> (r: Option<FuseReleaseIn>)
        ensures
            r == (if data@.len() < 24 { None } else { Some(FuseReleaseIn::parse(data@)) }),
    {
        if data.len() < FUSE_RELEASE_IN_SIZE {
            return None;
        }
        Some(FuseReleaseIn {
            fh: read_u64(data, 0),
            flags: read_u32(data, 8),
            release_flags: read_u32(data, 12),
            lock_owner: read_u64(data, 16),
        })
    }
}

/// Size in bytes of [`FuseFlushIn`] on the wire.
pub const FUSE_FLUSH_IN_SIZE: usize = 24;

/// Flush input.
#[derive(Clone, Copy, Debug, Default)]
pub struct FuseFlushIn {
    pub fh: u64,
    pub unused: u32,
    pub padding: u32,
    pub lock_owner: u64,
}

impl FuseFlushIn {
    /// The value `from_bytes` reads from the first 24 bytes of `s`.
    pub open spec fn parse(s: Seq<u8>) -> FuseFlushIn {
        FuseFlushIn {
            fh: le64(s, 0),
            unused: le32(s, 8),
            padding: le32(s, 12),
            lock_owner: le64(s, 16),
        }
    }

    /// Parses the first 24 bytes of `data`; `None` when it is shorter.
    pub fn from_bytes(data: &[u8]) -> (r: Option<FuseFlushIn>)
        ensures
            r == (if data@.len() < 24 { None } else { Some(FuseFlushIn::parse(data@)) }),
    {
        if data.len() < FUSE_FLUSH_IN_SIZE {
            return None;
        }
        Some(FuseFlushIn {
            fh: read_u64(data, 0),
            unused: read_u32(data, 8),
            padding: read_u32(data, 12),
            lock_owner: read_u64(data, 16),
        })
    }
}

/// Size in bytes of [`FuseFsyncIn`] on the wire.
pub const FUSE_FSYNC_IN_SIZE: usize = 16;

/// Fsync input.
#[derive(Clone, Copy, Debug, Default)]
pub struct FuseFsyncIn {
    pub fh: u64,
    pub fsync_flags: u32,
    pub padding: u32,
}

impl FuseFsyncIn {
    /// The value `from_bytes` reads from the first 16 bytes of `s`.
    pub open spec fn parse(s: Seq<u8>) -> FuseFsyncIn {
        FuseFsyncIn {
            fh: le64(s, 0),
            fsync_flags: le32(s, 8),
            padding: le32(s, 12),
        }
    }

    /// Parses the first 16 bytes of `data`; `None` when it is shorter.
    pub fn from_bytes(data: &[u8]) -> (r: Option<FuseFsyncIn>)
        ensures
            r == (if data@.len() < 16 { None } else { Some(FuseFsyncIn::parse(data@)) }),
    {
        if data.len() < FUSE_FSYNC_IN_SIZE {
            return None;
        }
        Some(FuseFsyncIn {
            fh: read_u64(data, 0),
            fsync_flags: read_u32(data, 8),
            padding: read_u32(data, 12),
        })
    }
}

/// Size in bytes of [`FuseMkdirIn`] on the wire.
pub const FUSE_MKDIR_IN_SIZE: usize = 8;

/// Mkdir input.
#[derive(Clone, Copy, Debug, Default)]
pub struct FuseMkdirIn {
    pub mode: u32,
    pub umask: u32,
}

impl FuseMkdirIn {
    /// The value `from_bytes` reads from the first 8 bytes of `s`.
    pub open spec fn parse(s: Seq<u8>) -> FuseMkdirIn {
        FuseMkdirIn {
            mode: le32(s, 0),
            umask: le32(s, 4),
        }
    }

    /// Parses the first 8 bytes of `data`; `None` when it is shorter.
    pub fn from_bytes(data: &[u8]) -> (r: Option<FuseMkdirIn>)
        ensures
            r == (if data@.len() < 8 { None } else { Some(FuseMkdirIn::parse(data@)) }),
    {
        if data.len() < FUSE_MKDIR_IN_SIZE {
            return None;
        }
        Some(FuseMkdirIn {
            mode: read_u32(data, 0),
            umask: read_u32(data, 4),
        })
    }
}

/// Size in bytes of [`FuseCreateIn`] on the wire.
pub const FUSE_CREATE_IN_SIZE: usize = 16;

/// Create input.
#[derive(Clone, Copy, Debug, Default)]
pub struct FuseCreateIn {
    pub flags: u32,
    pub mode: u32,
    pub umask: u32,
    pub padding: u32,
}

impl FuseCreateIn {
    /// The value `from_bytes` reads from the first 16 bytes of `s`.
    pub open spec fn parse(s: Seq<u8>) -> FuseCreateIn {
        FuseCreateIn {
            flags: le32(s, 0),
            mode: le32(s, 4),
            umask: le32(s, 8),
            padding: le32(s, 12),
        }
    }

    /// Parses the first 16 bytes of `data`; `None` when it is shorter.
    pub fn from_bytes(data: &[u8]) -> (r: Option<FuseCreateIn>)
        ensures
            r == (if data@.len() < 16 { None } else { Some(FuseCreateIn::parse(data@)) }),
    {
        if data.len() < FUSE_CREATE_IN_SIZE {
            return None;
        }
        Some(FuseCreateIn {
            flags: read_u32(data, 0),
            mode: read_u32(data, 4),
            umask: read_u32(data, 8),
            padding: read_u32(data, 12),
        })
    }
}

/// Size in bytes of [`FuseRenameIn`] on the wire.
pub const FUSE_RENAME_IN_SIZE: usize = 8;

/// Rename input.
#[derive(Clone, Copy, Debug, Default)]
pub struct FuseRenameIn {
    pub newdir: u64,
}

impl FuseRenameIn {
    /// The value `from_bytes` reads from the first 8 bytes of `s`.
    pub open spec fn parse(s: Seq<u8>) -> FuseRenameIn {
        FuseRenameIn {
            newdir: le64(s, 0),
        }
    }

    /// Parses the first 8 bytes of `data`; `None` when it is shorter.
    pub fn from_bytes(data: &[u8]) -> (r: Option<FuseRenameIn>)
        ensures
            r == (if data@.len() < 8 { None } else { Some(FuseRenameIn::parse(data@)) }),
    {
        if data.len() < FUSE_RENAME_IN_SIZE {
            return None;
        }
        Some(FuseRenameIn {
            newdir: read_u64(data, 0),
        })
    }
}

/// Size in bytes of [`FuseLinkIn`] on the wire.
pub const FUSE_LINK_IN_SIZE: usize = 8;

/// Link input.
#[derive(Clone, Copy, Debug, Default)]
pub struct FuseLinkIn {
    pub oldnodeid: u64,
}

impl FuseLinkIn {
    /// The value `from_bytes` reads from the first 8 bytes of `s`.
    pub open spec fn parse(s: Seq<u8>) -> FuseLinkIn {
        FuseLinkIn {
            oldnodeid: le64(s, 0),
        }
    }

    /// Parses the first 8 bytes of `data`; `None` when it is shorter.
    pub fn from_bytes(data: &[u8]) -> (r: Option<FuseLinkIn>)
        ensures
            r == (if data@.len() < 8 { None } else { Some(FuseLinkIn::parse(data@)) }),
    {
        if data.len() < FUSE_LINK_IN_SIZE {
            return None;
        }
        Some(FuseLinkIn {
            oldnodeid: read_u64(data, 0),
        })
    }
}

/// Size in bytes of [`FuseMknodIn`] on the wire.
pub const FUSE_MKNOD_IN_SIZE: usize = 16;

/// Mknod input.
#[derive(Clone, Copy, Debug, Default)]
pub struct FuseMknodIn {
    pub mode: u32,
    pub rdev: u32,
    pub umask: u32,
    pub padding: u32,
}

impl FuseMknodIn {
    /// The value `from_bytes` reads from the first 16 bytes of `s`.
    pub open spec fn parse(s: Seq<u8>) -> FuseMknodIn {
        FuseMknodIn {
            mode: le32(s, 0),
            rdev: le32(s, 4),
            umask: le32(s, 8),
            padding: le32(s, 12),
        }
    }

    /// Parses the first 16 bytes of `data`; `None` when it is shorter.
    pub fn from_bytes(data: &[u8]) -> (r: Option<FuseMknodIn>)
        ensures
            r == (if data@.len() < 16 { None } else { Some(FuseMknodIn::parse(data@)) }),
    {
        if data.len() < FUSE_MKNOD_IN_SIZE {
            return None;
        }
        Some(FuseMknodIn {
            mode: read_u32(data, 0),
            rdev: read_u32(data, 4),
            umask: read_u32(data, 8),
            padding: read_u32(data, 12),
        })
    }
}

/// Size in bytes of [`FuseAccessIn`] on the wire.
pub const FUSE_ACCESS_IN_SIZE: usize = 8;

/// Access input.
#[derive(Clone, Copy, Debug, Default)]
pub struct FuseAccessIn {
    pub mask: u32,
    pub padding: u32,
}

impl FuseAccessIn {
    /// The value `from_bytes` reads from the first 8 bytes of `s`.
    pub open spec fn parse(s: Seq<u8>) -> FuseAccessIn {
        FuseAccessIn {
            mask: le32(s, 0),
            padding: le32(s, 4),
        }
    }

    /// Parses the first 8 bytes of `data`; `None` when it is shorter.
    pub fn from_bytes(data: &[u8]) -> (r: Option<FuseAccessIn>)
        ensures
            r == (if data@.len() < 8 { None } else { Some(FuseAccessIn::parse(data@)) }),
    {
        if data.len() < FUSE_ACCESS_IN_SIZE {
            return None;
        }
        Some(FuseAccessIn {
            mask: read_u32(data, 0),
            padding: read_u32(data, 4),
        })
    }
}

/// Size in bytes of [`FuseStatfsOut`] on the wire.
pub const FUSE_STATFS_OUT_SIZE: usize = 80;

/// Statfs output (80 bytes; the spare words are written as zeros).
#[derive(Clone, Copy, Debug, Default)]
pub struct FuseStatfsOut {
    pub blocks: u64,
    pub bfree: u64,
    pub bavail: u64,
    pub files: u64,
    pub ffree: u64,
    pub bsize: u32,
    pub namelen: u32,
    pub frsize: u32,
    pub padding: u32,
    pub spare: [u32; 6],
}

impl FuseStatfsOut {
    /// The 80 bytes `to_bytes` writes.
    pub open spec fn spec_bytes(self) -> Seq<u8> {
        bytes64(self.blocks)
            + bytes64(self.bfree)
            + bytes64(self.bavail)
            + bytes64(self.files)
            + bytes64(self.ffree)
            + bytes32(self.bsize)
            + bytes32(self.namelen)
            + bytes32(self.frsize)
            + bytes32(self.padding)
            + zeros(24)
    }

    /// The little-endian wire encoding, 80 bytes.
    pub fn to_bytes(self) -> (r: Vec<u8>)
        ensures
            r@ == self.spec_bytes(),
            r@.len() == 80,
    {
        proof {
            lemma_le_roundtrip();
        }
        let mut buf: Vec<u8> = Vec::new();
        put_u64(&mut buf, self.blocks);
        put_u64(&mut buf, self.bfree);
        put_u64(&mut buf, self.bavail);
        put_u64(&mut buf, self.files);
        put_u64(&mut buf, self.ffree);
        put_u32(&mut buf, self.bsize);
        put_u32(&mut buf, self.namelen);
        put_u32(&mut buf, self.frsize);
        put_u32(&mut buf, self.padding);
        put_zeros(&mut buf, 24);
        buf
    }
}

/// Size in bytes of [`FuseDirent`] on the wire.
pub const FUSE_DIRENT_SIZE: usize = 24;

/// Directory entry header for readdir; the name follows, padded to 8 bytes.
#[derive(Clone, Copy, Debug, Default)]
pub struct FuseDirent {
    pub ino: u64,
    pub off: u64,
    pub namelen: u32,
    pub typ: u32,
}

impl FuseDirent {
    /// The 24 bytes `to_bytes` writes.
    pub open spec fn spec_bytes(self) -> Seq<u8> {
        bytes64(self.ino)
            + bytes64(self.off)
            + bytes32(self.namelen)
            + bytes32(self.typ)
    }

    /// The little-endian wire encoding, 24 bytes.
    pub fn to_bytes(self) -> (r: Vec<u8>)
        ensures
            r@ == self.spec_bytes(),
            r@.len() == 24,
    {
        proof {
            lemma_le_roundtrip();
        }
        let mut buf: Vec<u8> = Vec::new();
        put_u64(&mut buf, self.ino);
        put_u64(&mut buf, self.off);
        put_u32(&mut buf, self.namelen);
        put_u32(&mut buf, self.typ);
        buf
    }
}

impl FuseDirent {
    /// Size of a directory entry whose name has `name_len` bytes: the header plus the name,
    /// rounded up to a multiple of 8.
    pub fn entry_size(name_len: usize) -> (r: usize)
        requires
            name_len + 31 <= usize::MAX,
        ensures
            r % 8 == 0,
            FUSE_DIRENT_SIZE + name_len <= r < FUSE_DIRENT_SIZE + name_len + 8,
    {
        let x: usize = FUSE_DIRENT_SIZE + name_len + 7;
        let r = x & !7usize;
        assert(r == x - x % 8 && r % 8 == 0) by (bit_vector)
            requires
                r == x & !7usize,
        ;
        r
    }
}

/// Decodes UTF-8 (`std::str::from_utf8`): the text when `b` is valid UTF-8, else `None`.
#[verifier::external_body]
fn str_from_utf8(b: &[u8]) -> (r: Option<&str>)
    ensures
        r is Some <==> vstd::utf8::valid_utf8(b@),
        r matches Some(s) ==> s@ == vstd::utf8::decode_utf8(b@),
{
    std::str::from_utf8(b).ok()
}

/// Index of the first zero byte of `s`.
pub open spec fn first_nul(s: Seq<u8>) -> Option<int>
    decreases s.len(),
{
    if s.len() == 0 {
        None
    } else if s[0] == 0 {
        Some(0)
    } else {
        match first_nul(s.drop_first()) {
            Some(i) => Some(i + 1),
            None => None,
        }
    }
}

/// The name `extract_name` reads: the bytes before the first zero byte, when there is one
/// and they are valid UTF-8.
pub open spec fn name_bytes(s: Seq<u8>) -> Option<Seq<u8>> {
    match first_nul(s) {
        Some(i) => Some(s.subrange(0, i)),
        None => None,
    }
}

/// Extracts a zero-terminated UTF-8 name from the start of `data`.
pub fn extract_name(data: &[u8]) -> (r: Option<&str>)
    ensures
        match name_bytes(data@) {
            Some(b) => if vstd::utf8::valid_utf8(b) {
                r is Some && r->0@ == vstd::utf8::decode_utf8(b)
            } else {
                r is None
            },
            None => r is None,
        },
{
    let len = data.len();
    let ghost s = data@;
    assert(s.subrange(0, s.len() as int) =~= s);
    let mut i: usize = 0;
    while i < len
        invariant
            len == s.len(),
            s == data@,
            i <= len,
            first_nul(s) == match first_nul(s.subrange(i as int, s.len() as int)) {
                Some(m) => Some(m + i),
                None => None,
            },
        decreases len - i,
    {
        proof {
            let t = s.subrange(i as int, s.len() as int);
            assert(t.drop_first() =~= s.subrange(i + 1, s.len() as int));
            assert(t[0] == s[i as int]);
        }
        if data[i] == 0 {
            let (head, _) = data.split_at(i);
            assert(head@ =~= s.subrange(0, i as int));
            return str_from_utf8(head);
        }
        i = i + 1;
    }
    proof {
        assert(s.subrange(i as int, s.len() as int) =~= Seq::<u8>::empty());
    }
    None
}

/// Reply reporting error `errno` for request `unique`: a bare header.
pub fn error_response(unique: u64, errno: i32) -> (r: Vec<u8>)
    requires
        errno != i32::MIN,
    ensures
        r@ == (FuseOutHeader { len: 16, error: (-errno) as i32, unique }).spec_bytes(),
        r@.len() == 16,
{
    let header = FuseOutHeader { len: FUSE_OUT_HEADER_SIZE as u32, error: -errno, unique };
    header.to_bytes()
}

/// Successful reply for request `unique` carrying `payload` after the header.
pub fn success_response(unique: u64, payload: &[u8]) -> (r: Vec<u8>)
    requires
        payload@.len() + 16 <= usize::MAX,
    ensures
        r@ == (FuseOutHeader {
            len: (16 + payload@.len()) as u32,
            error: 0,
            unique,
        }).spec_bytes() + payload@,
{
    let header = FuseOutHeader {
        len: (FUSE_OUT_HEADER_SIZE + payload.len()) as u32,
        error: 0,
        unique,
    };
    let mut buf = header.to_bytes();
    put_bytes(&mut buf, payload);
    buf
}

/// Successful reply for request `unique` with no payload.
pub fn success_response_empty(unique: u64) -> (r: Vec<u8>)
    ensures
        r@ == (FuseOutHeader { len: 16, error: 0, unique }).spec_bytes(),
        r@.len() == 16,
{
    let header = FuseOutHeader { len: FUSE_OUT_HEADER_SIZE as u32, error: 0, unique };
    header.to_bytes()
}

/// A reply header read back from its encoding gives its fields.
pub proof fn law_out_header_roundtrip(h: FuseOutHeader)
    ensures
        h.spec_bytes().len() == 16,
        le32(h.spec_bytes(), 0) == h.len,
        le32(h.spec_bytes(), 4) as i32 == h.error,
        le64(h.spec_bytes(), 8) == h.unique,
{
    lemma_le_roundtrip();
    let b = h.spec_bytes();
    assert(b.subrange(0, 4) =~= bytes32(h.len));
    assert(b.subrange(4, 8) =~= bytes32(h.error as u32));
    assert(b.subrange(8, 16) =~= bytes64(h.unique));
    lemma_read_back_32(b, 0, h.len);
    lemma_read_back_32(b, 4, h.error as u32);
    lemma_read_back_64(b, 8, h.unique);
    let e = h.error;
    assert((e as u32) as i32 == e) by (bit_vector);
}

/// Largest read the device accepts.
pub const MAX_READ_SIZE: u32 = 1024 * 1024;
/// Largest write the device accepts.
pub const MAX_WRITE_SIZE: u32 = 1024 * 1024;

/// The flags the device announces in its INIT reply.
pub const INIT_FLAGS: u32 = FUSE_ASYNC_READ | FUSE_BIG_WRITES | FUSE_ATOMIC_O_TRUNC
    | FUSE_EXPORT_SUPPORT | FUSE_PARALLEL_DIROPS | FUSE_MAX_PAGES;

/// The encoded INIT reply body for a kernel offering `init_in`.
pub open spec fn init_out_bytes(init_in: FuseInitIn) -> Seq<u8> {
    bytes32(FUSE_KERNEL_VERSION) + bytes32(FUSE_KERNEL_MINOR_VERSION) + bytes32(
        init_in.max_readahead,
    ) + bytes32(INIT_FLAGS) + bytes16(0) + bytes16(0) + bytes32(MAX_WRITE_SIZE) + bytes32(1)
        + bytes16(256) + bytes16(0) + zeros(32)
}

/// Answers an INIT request with body `body`: `(reply, whether the session is now initialised)`.
/// A body too short for `FuseInitIn` is `EINVAL`; a kernel major version below ours is `EPROTO`.
pub fn handle_init(unique: u64, body: &[u8]) -> (r: (Vec<u8>, bool))
    ensures
        body@.len() < FUSE_INIT_IN_SIZE ==> r.0@ == (FuseOutHeader {
            len: 16,
            error: -22i32,
            unique,
        }).spec_bytes() && !r.1,
        body@.len() >= FUSE_INIT_IN_SIZE && FuseInitIn::parse(body@).major < FUSE_KERNEL_VERSION
            ==> r.0@ == (FuseOutHeader { len: 16, error: -71i32, unique }).spec_bytes() && !r.1,
        body@.len() >= FUSE_INIT_IN_SIZE && FuseInitIn::parse(body@).major >= FUSE_KERNEL_VERSION
            ==> r.0@ == (FuseOutHeader { len: 80, error: 0, unique }).spec_bytes()
            + init_out_bytes(FuseInitIn::parse(body@)) && r.1,
{
    let init_in = match FuseInitIn::from_bytes(body) {
        Some(i) => i,
        None => return (error_response(unique, 22), false),
    };
    if init_in.major < FUSE_KERNEL_VERSION {
        return (error_response(unique, 71), false);
    }
    let out = FuseInitOut {
        major: FUSE_KERNEL_VERSION,
        minor: FUSE_KERNEL_MINOR_VERSION,
        max_readahead: init_in.max_readahead,
        flags: INIT_FLAGS,
        max_background: 0,
        congestion_threshold: 0,
        max_write: MAX_WRITE_SIZE,
        time_gran: 1,
        max_pages: (MAX_READ_SIZE / 4096) as u16,
        map_alignment: 0,
        unused: [0u32; 8],
    };
    let bytes = out.to_bytes();
    (success_response(unique, bytes.as_slice()), true)
}

/// `ENOSYS`: operation not implemented.
pub const ENOSYS: i32 = 38;
/// `EROFS`: read-only file system.
pub const EROFS: i32 = 30;

/// Whether the device serves requests with opcode `op` (the others are answered `ENOSYS`).
pub open spec fn is_served(op: FuseOpcode) -> bool {
    match op {
        FuseOpcode::Init | FuseOpcode::Destroy | FuseOpcode::Lookup | FuseOpcode::Forget
        | FuseOpcode::Getattr | FuseOpcode::Setattr | FuseOpcode::Readlink | FuseOpcode::Symlink
        | FuseOpcode::Mknod | FuseOpcode::Mkdir | FuseOpcode::Unlink | FuseOpcode::Rmdir
        | FuseOpcode::Rename | FuseOpcode::Link | FuseOpcode::Open | FuseOpcode::Read
        | FuseOpcode::Write | FuseOpcode::Statfs | FuseOpcode::Release | FuseOpcode::Fsync
        | FuseOpcode::Opendir | FuseOpcode::Readdir | FuseOpcode::Releasedir | FuseOpcode::Fsyncdir
        | FuseOpcode::Access | FuseOpcode::Create | FuseOpcode::Flush => true,
        _ => false,
    }
}

/// Where a request goes: straight back as an error reply, or to the handler of its opcode
/// with its header and body.
#[derive(Debug)]
pub enum FuseRoute {
    Reply(Vec<u8>),
    Dispatch { header: FuseInHeader, opcode: FuseOpcode, body: Vec<u8> },
}

/// Routes a request: too short for a header is `EINVAL` (for request 0), an unknown or
/// unserved opcode is `ENOSYS`; anything else goes to its handler with the bytes after
/// the header as body.
pub fn route_request(request: &[u8]) -> (r: FuseRoute)
    ensures
        request@.len() < FUSE_IN_HEADER_SIZE ==> (r matches FuseRoute::Reply(b)
            && b@ == (FuseOutHeader { len: 16, error: -22i32, unique: 0 }).spec_bytes()),
        request@.len() >= FUSE_IN_HEADER_SIZE ==> ({
            let h = FuseInHeader::parse(request@);
            if is_opcode_number(h.opcode) {
                let op = choose|op: FuseOpcode| opcode_number(op) == h.opcode;
                if is_served(op) {
                    (r matches FuseRoute::Dispatch { header, opcode, body }
                        && header == h && opcode_number(opcode) == h.opcode
                        && body@ == request@.subrange(FUSE_IN_HEADER_SIZE as int, request@.len() as int))
                } else {
                    (r matches FuseRoute::Reply(b) && b@ == (FuseOutHeader { len: 16, error: -38i32, unique: h.unique }).spec_bytes())
                }
            } else {
                (r matches FuseRoute::Reply(b) && b@ == (FuseOutHeader { len: 16, error: -38i32, unique: h.unique }).spec_bytes())
            }
        }),
{
    let header = match FuseInHeader::from_bytes(request) {
        Some(h) => h,
        None => return FuseRoute::Reply(error_response(0, 22)),
    };
    let opcode = match FuseOpcode::try_from(header.opcode) {
        Ok(op) => op,
        Err(_) => return FuseRoute::Reply(error_response(header.unique, ENOSYS)),
    };
    proof {
        let op = choose|op: FuseOpcode| opcode_number(op) == header.opcode;
        law_opcode_numbers(op, opcode);
    }
    let served = match opcode {
        FuseOpcode::Init | FuseOpcode::Destroy | FuseOpcode::Lookup | FuseOpcode::Forget
        | FuseOpcode::Getattr | FuseOpcode::Setattr | FuseOpcode::Readlink | FuseOpcode::Symlink
        | FuseOpcode::Mknod | FuseOpcode::Mkdir | FuseOpcode::Unlink | FuseOpcode::Rmdir
        | FuseOpcode::Rename | FuseOpcode::Link | FuseOpcode::Open | FuseOpcode::Read
        | FuseOpcode::Write | FuseOpcode::Statfs | FuseOpcode::Release | FuseOpcode::Fsync
        | FuseOpcode::Opendir | FuseOpcode::Readdir | FuseOpcode::Releasedir | FuseOpcode::Fsyncdir
        | FuseOpcode::Access | FuseOpcode::Create | FuseOpcode::Flush => true,
        _ => false,
    };
    if !served {
        return FuseRoute::Reply(error_response(header.unique, ENOSYS));
    }
    let body = copy_range(request, FUSE_IN_HEADER_SIZE, request.len() - FUSE_IN_HEADER_SIZE);
    FuseRoute::Dispatch { header, opcode, body }
}

/// A timestamp to set: now, left alone, or seconds and nanoseconds.
#[derive(Debug, Clone, Copy, PartialEq, Eq, Structural)]
pub enum TimeSpec {
    Now,
    Omit,
    At(i64, i64),
}

/// The changes a SETATTR request asks for, in the order they are made.
#[derive(Debug, Clone, Copy, PartialEq, Eq)]
pub struct SetattrPlan {
    /// Truncate or extend to this size.
    pub truncate: Option<u64>,
    /// Set these permission bits.
    pub chmod: Option<u32>,
    /// Change owner and group (`u32::MAX` leaves one unchanged).
    pub chown: Option<(u32, u32)>,
    /// Set access and modification times.
    pub times: Option<(TimeSpec, TimeSpec)>,
}

/// The time a SETATTR asks for: now when the `now` bit is set, the given time when the
/// `set` bit is, otherwise left alone.
pub open spec fn time_for(valid: u32, now_bit: u32, set_bit: u32, secs: u64, nsecs: u32) -> TimeSpec {
    if valid & now_bit != 0 {
        TimeSpec::Now
    } else if valid & set_bit != 0 {
        TimeSpec::At(secs as i64, nsecs as i64)
    } else {
        TimeSpec::Omit
    }
}

fn time_for_exec(valid: u32, now_bit: u32, set_bit: u32, secs: u64, nsecs: u32) -> (r: TimeSpec)
    ensures
        r == time_for(valid, now_bit, set_bit, secs, nsecs),
{
    if valid & now_bit != 0 {
        TimeSpec::Now
    } else if valid & set_bit != 0 {
        TimeSpec::At(secs as i64, nsecs as i64)
    } else {
        TimeSpec::Omit
    }
}

/// The changes `s` asks for, by its `valid` bits: size, mode, owner and group, times.
pub fn setattr_plan(s: &FuseSetattrIn) -> (r: SetattrPlan)
    ensures
        r.truncate == (if s.valid & FATTR_SIZE != 0 { Some(s.size) } else { None }),
        r.chmod == (if s.valid & FATTR_MODE != 0 { Some(s.mode) } else { None }),
        r.chown == (if s.valid & (FATTR_UID | FATTR_GID) != 0 {
            Some((if s.valid & FATTR_UID != 0 { s.uid } else { u32::MAX }, if s.valid & FATTR_GID != 0 { s.gid } else { u32::MAX }))
        } else {
            None
        }),
        r.times == (if s.valid & (FATTR_ATIME | FATTR_MTIME) != 0 {
            Some((time_for(s.valid, FATTR_ATIME_NOW, FATTR_ATIME, s.atime, s.atimensec),
                  time_for(s.valid, FATTR_MTIME_NOW, FATTR_MTIME, s.mtime, s.mtimensec)))
        } else {
            None
        }),
{
    let v = s.valid;
    let truncate = if v & FATTR_SIZE != 0 { Some(s.size) } else { None };
    let chmod = if v & FATTR_MODE != 0 { Some(s.mode) } else { None };
    let chown = if v & (FATTR_UID | FATTR_GID) != 0 {
        let uid = if v & FATTR_UID != 0 { s.uid } else { u32::MAX };
        let gid = if v & FATTR_GID != 0 { s.gid } else { u32::MAX };
        Some((uid, gid))
    } else {
        None
    };
    let times = if v & (FATTR_ATIME | FATTR_MTIME) != 0 {
        Some((time_for_exec(v, FATTR_ATIME_NOW, FATTR_ATIME, s.atime, s.atimensec),
              time_for_exec(v, FATTR_MTIME_NOW, FATTR_MTIME, s.mtime, s.mtimensec)))
    } else {
        None
    };
    SetattrPlan { truncate, chmod, chown, times }
}

/// A request on a read-only share that would change it is refused with `EROFS`.
pub fn refuse_on_read_only(unique: u64, read_only: bool) -> (r: Option<Vec<u8>>)
    ensures
        read_only ==> r is Some && r->0@ == (FuseOutHeader { len: 16, error: -30i32, unique }).spec_bytes(),
        !read_only ==> r is None,
{
    if read_only {
        Some(error_response(unique, EROFS))
    } else {
        None
    }
}

} // verus!
