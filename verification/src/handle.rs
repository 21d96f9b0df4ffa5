//! The shared-directory device's table of open files and directories, the access an open
//! request asks for, and the READDIR reply built from a directory listing. The open files
//! themselves are the caller's; the table keeps them under handle numbers.
use vstd::prelude::*;
use std::collections::HashMap;
use vstd::string::StringSliceAdditionalSpecFns;
use crate::fuse::{FuseDirent, FUSE_DIRENT_SIZE};
use crate::wire::{put_bytes, put_zeros, zeros, le64, bytes64};

verus! {

broadcast use vstd::std_specs::hash::group_hash_axioms;

/// Most handles open at once.
pub const MAX_HANDLES: usize = 4096;

/// `EMFILE`: too many open files.
pub const EMFILE: i32 = 24;
/// `EROFS`: read-only file system.
pub const EROFS: i32 = 30;
/// `EBADF`: bad handle.
pub const EBADF: i32 = 9;
/// `ENOTDIR`: not a directory.
pub const ENOTDIR: i32 = 20;
/// `EISDIR`: is a directory.
pub const EISDIR: i32 = 21;

/// Access-mode bits of the open flags.
pub const O_ACCMODE: u32 = 0o3;
pub const O_RDONLY: u32 = 0o0;
pub const O_WRONLY: u32 = 0o1;
pub const O_RDWR: u32 = 0o2;
pub const O_CREAT: u32 = 0o100;
pub const O_EXCL: u32 = 0o200;
pub const O_TRUNC: u32 = 0o1000;
pub const O_APPEND: u32 = 0o2000;

/// Directory entry types.
pub const DT_UNKNOWN: u32 = 0;
pub const DT_DIR: u32 = 4;
pub const DT_REG: u32 = 8;
pub const DT_LNK: u32 = 10;

/// How to open a host file for an open request.
#[derive(Clone, Copy, Debug, PartialEq, Eq, Structural)]
pub struct OpenAccess {
    pub read: bool,
    pub write: bool,
    pub append: bool,
    pub truncate: bool,
    /// The remaining flags, handed to the host as they are.
    pub custom_flags: u32,
}

/// The access an OPEN with `flags` asks for.
pub open spec fn open_access_spec(flags: u32) -> OpenAccess {
    let mode = flags & O_ACCMODE;
    OpenAccess {
        read: mode == O_RDONLY || mode == O_RDWR,
        write: mode == O_WRONLY || mode == O_RDWR,
        append: flags & O_APPEND != 0,
        truncate: flags & O_TRUNC != 0,
        custom_flags: flags & !(O_ACCMODE | O_CREAT | O_EXCL),
    }
}

/// The access a CREATE with `flags` asks for: it always writes when `O_CREAT` is set.
pub open spec fn create_access_spec(flags: u32) -> OpenAccess {
    let mode = flags & O_ACCMODE;
    OpenAccess {
        read: mode == O_RDONLY || mode == O_RDWR,
        write: mode == O_WRONLY || mode == O_RDWR || flags & O_CREAT != 0,
        append: false,
        truncate: flags & O_TRUNC != 0,
        custom_flags: 0,
    }
}

/// The kind of a directory entry as the host reports it.
#[derive(Clone, Copy, Debug, PartialEq, Eq, Structural)]
pub enum EntryKind {
    Dir,
    Symlink,
    File,
    Other,
}

/// The `d_type` of an entry kind.
pub open spec fn dirent_type(k: EntryKind) -> u32 {
    match k {
        EntryKind::Dir => DT_DIR,
        EntryKind::Symlink => DT_LNK,
        EntryKind::File => DT_REG,
        EntryKind::Other => DT_UNKNOWN,
    }
}

/// One entry of a directory listing.
#[derive(Debug)]
pub struct DirEntry {
    pub ino: u64,
    pub name: String,
    pub typ: u32,
}

/// What a handle holds: an open file of the caller's, or a directory listing.
#[derive(Debug)]
pub enum HandleKind<F> {
    File(F),
    Dir(Vec<DirEntry>),
}

/// An open handle: what it holds, the inode it was opened for, the open flags.
#[derive(Debug)]
pub struct Handle<F> {
    pub kind: HandleKind<F>,
    pub ino: u64,
    pub flags: u32,
}

/// The open handles, by number.
pub struct HandleTable<F> {
    handles: HashMap<u64, Handle<F>>,
    next_fh: u64,
}

impl<F> HandleTable<F> {
    /// The open handles.
    pub closed spec fn handles(&self) -> Map<u64, Handle<F>> {
        self.handles@
    }

    /// The number the next handle gets.
    pub closed spec fn next_fh(&self) -> u64 {
        self.next_fh
    }

    /// Every handle number was handed out (is below `next_fh`), and the table holds at most
    /// `MAX_HANDLES` handles.
    pub closed spec fn wf(&self) -> bool {
        &&& self.handles@.dom().finite()
        &&& self.next_fh >= 1
        &&& forall|k: u64| #[trigger] self.handles@.contains_key(k) ==> 1 <= k < self.next_fh
        &&& self.handles@.len() <= MAX_HANDLES
    }

    /// No handles; the first gets number 1.
    pub fn new() -> (r: HandleTable<F>)
        ensures
            r.wf(),
            r.handles() == Map::<u64, Handle<F>>::empty(),
            r.next_fh() == 1,
    {
        let r = HandleTable { handles: HashMap::new(), next_fh: 1 };
        assert(r.handles@ =~= Map::<u64, Handle<F>>::empty());
        r
    }

    /// Number of open handles.
    pub fn len(&self) -> (r: usize)
        ensures
            r == self.handles().len(),
    {
        self.handles.len()
    }

    /// The access an OPEN with `flags` gets: `EMFILE` when the table is full, `EROFS` when it
    /// would write on a read-only share.
    pub fn open_access(&self, flags: u32, read_only: bool) -> (r: Result<OpenAccess, i32>)
        ensures
            self.handles().len() >= MAX_HANDLES ==> r == Err::<OpenAccess, i32>(EMFILE),
            self.handles().len() < MAX_HANDLES && read_only && open_access_spec(flags).write ==> r == Err::<OpenAccess, i32>(EROFS),
            self.handles().len() < MAX_HANDLES && !(read_only && open_access_spec(flags).write) ==> r == Ok::<OpenAccess, i32>(open_access_spec(flags)),
    {
        if self.handles.len() >= MAX_HANDLES {
            return Err(EMFILE);
        }
        let mode = flags & O_ACCMODE;
        let access = OpenAccess {
            read: mode == O_RDONLY || mode == O_RDWR,
            write: mode == O_WRONLY || mode == O_RDWR,
            append: flags & O_APPEND != 0,
            truncate: flags & O_TRUNC != 0,
            custom_flags: flags & !(O_ACCMODE | O_CREAT | O_EXCL),
        };
        if access.write && read_only {
            return Err(EROFS);
        }
        Ok(access)
    }

    /// The access a CREATE with `flags` gets: `EMFILE` when the table is full.
    pub fn create_access(&self, flags: u32) -> (r: Result<OpenAccess, i32>)
        ensures
            self.handles().len() >= MAX_HANDLES ==> r == Err::<OpenAccess, i32>(EMFILE),
            self.handles().len() < MAX_HANDLES ==> r == Ok::<OpenAccess, i32>(create_access_spec(flags)),
    {
        if self.handles.len() >= MAX_HANDLES {
            return Err(EMFILE);
        }
        let mode = flags & O_ACCMODE;
        Ok(OpenAccess {
            read: mode == O_RDONLY || mode == O_RDWR,
            write: mode == O_WRONLY || mode == O_RDWR || flags & O_CREAT != 0,
            append: false,
            truncate: flags & O_TRUNC != 0,
            custom_flags: 0,
        })
    }

    /// Keeps `handle` under a new number (`EMFILE` when the table is full).
    pub fn insert(&mut self, handle: Handle<F>) -> (r: Result<u64, i32>)
        requires
            old(self).wf(),
            old(self).next_fh() < u64::MAX,
        ensures
            final(self).wf(),
            old(self).handles().len() >= MAX_HANDLES ==> r == Err::<u64, i32>(EMFILE)
                && final(self).handles() == old(self).handles() && final(self).next_fh() == old(self).next_fh(),
            old(self).handles().len() < MAX_HANDLES ==> r == Ok::<u64, i32>(old(self).next_fh())
                && !old(self).handles().contains_key(old(self).next_fh())
                && final(self).handles() == old(self).handles().insert(old(self).next_fh(), handle)
                && final(self).handles().len() == old(self).handles().len() + 1
                && final(self).next_fh() == old(self).next_fh() + 1,
    {
        if self.handles.len() >= MAX_HANDLES {
            return Err(EMFILE);
        }
        let fh = self.next_fh;
        self.next_fh = self.next_fh + 1;
        let ghost before = self.handles@;
        self.handles.insert(fh, handle);
        proof {
            assert(!before.contains_key(fh));
            assert(self.handles@.dom() =~= before.dom().insert(fh));
        }
        Ok(fh)
    }

    /// The handle numbered `fh`, if open.
    pub fn get(&self, fh: u64) -> (r: Option<&Handle<F>>)
        ensures
            match r {
                Some(h) => self.handles().contains_key(fh) && self.handles()[fh] == *h,
                None => !self.handles().contains_key(fh),
            },
    {
        self.handles.get(&fh)
    }

    /// Closes handle `fh`, handing back what it held.
    pub fn release(&mut self, fh: u64) -> (r: Option<Handle<F>>)
        requires
            old(self).wf(),
        ensures
            final(self).wf(),
            final(self).handles() == old(self).handles().remove(fh),
            final(self).next_fh() == old(self).next_fh(),
            match r {
                Some(h) => old(self).handles().contains_key(fh) && old(self).handles()[fh] == h
                    && final(self).handles().len() == old(self).handles().len() - 1,
                None => !old(self).handles().contains_key(fh),
            },
    {
        let ghost before = self.handles@;
        let r = self.handles.remove(&fh);
        proof {
            assert(self.handles@.dom() =~= before.dom().remove(fh));
        }
        r
    }

    /// The entries of directory handle `fh` from position `offset` on: `EBADF` for an
    /// unknown handle, `ENOTDIR` for a file, nothing past the end.
    pub fn read_dir(&self, fh: u64, offset: u64) -> (r: Result<&[DirEntry], i32>)
        ensures
            !self.handles().contains_key(fh) ==> r == Err::<&[DirEntry], i32>(EBADF),
            self.handles().contains_key(fh) && self.handles()[fh].kind is File ==> r == Err::<&[DirEntry], i32>(ENOTDIR),
            self.handles().contains_key(fh) && self.handles()[fh].kind is Dir ==> r is Ok && ({
                let all = self.handles()[fh].kind->Dir_0@;
                r->Ok_0@ == if offset >= all.len() { Seq::empty() } else { all.subrange(offset as int, all.len() as int) }
            }),
    {
        match self.handles.get(&fh) {
            None => Err(EBADF),
            Some(h) => match &h.kind {
                HandleKind::File(_) => Err(ENOTDIR),
                HandleKind::Dir(entries) => {
                    let n = entries.len();
                    if offset >= n as u64 {
                        let empty: &[DirEntry] = &[];
                        assert(empty@ =~= Seq::<DirEntry>::empty());
                        Ok(empty)
                    } else {
                        let s = entries.as_slice();
                        let r = vstd::slice::slice_subrange(s, offset as usize, n);
                        Ok(r)
                    }
                },
            },
        }
    }
}

/// The `d_type` of an entry kind.
pub fn entry_type(k: EntryKind) -> (r: u32)
    ensures
        r == dirent_type(k),
{
    match k {
        EntryKind::Dir => DT_DIR,
        EntryKind::Symlink => DT_LNK,
        EntryKind::File => DT_REG,
        EntryKind::Other => DT_UNKNOWN,
    }
}

/// The listing kept for an opened directory: `.` (the directory itself), `..` (inode 0),
/// then the host's entries with inode 0, in the order the host gave them.
pub fn dir_listing(ino: u64, host_entries: Vec<(String, EntryKind)>) -> (r: Vec<DirEntry>)
    ensures
        r@.len() == host_entries@.len() + 2,
        r@[0].ino == ino && r@[0].name@ == "."@ && r@[0].typ == DT_DIR,
        r@[1].ino == 0 && r@[1].name@ == ".."@ && r@[1].typ == DT_DIR,
        forall|i: int| 0 <= i < host_entries@.len() ==> {
            &&& (#[trigger] r@[i + 2]).ino == 0
            &&& r@[i + 2].name@ == host_entries@[i].0@
            &&& r@[i + 2].typ == dirent_type(host_entries@[i].1)
        },
{
    let mut r: Vec<DirEntry> = Vec::new();
    r.push(DirEntry { ino, name: crate::text::owned("."), typ: DT_DIR });
    r.push(DirEntry { ino: 0, name: crate::text::owned(".."), typ: DT_DIR });
    let ghost src = host_entries@;
    let mut rest = host_entries;
    let mut taken: usize = 0;
    let n = rest.len();
    assert(rest@ =~= src.subrange(0, n as int));
    while rest.len() > 0
        invariant
            n == src.len(),
            taken + rest@.len() == n,
            rest@ == src.subrange(taken as int, n as int),
            r@.len() == taken + 2,
            r@[0].ino == ino && r@[0].name@ == "."@ && r@[0].typ == DT_DIR,
            r@[1].ino == 0 && r@[1].name@ == ".."@ && r@[1].typ == DT_DIR,
            forall|i: int| 0 <= i < taken ==> {
                &&& (#[trigger] r@[i + 2]).ino == 0
                &&& r@[i + 2].name@ == src[i].0@
                &&& r@[i + 2].typ == dirent_type(src[i].1)
            },
        decreases rest@.len(),
    {
        let ghost before = rest@;
        let (name, kind) = rest.remove(0);
        proof {
            assert(before[0] == src[taken as int]);
            assert(rest@ =~= src.subrange(taken + 1, n as int));
        }
        r.push(DirEntry { ino: 0, name, typ: entry_type(kind) });
        taken = taken + 1;
    }
    r
}

/// Size of a directory entry whose name has `n` bytes, padded to 8 bytes.
pub open spec fn dirent_size(n: nat) -> nat {
    ((FUSE_DIRENT_SIZE + n + 7) / 8 * 8) as nat
}

/// The bytes of entry `e` at position `off`: header, name, zero padding.
pub open spec fn dirent_bytes(e: DirEntry, off: u64) -> Seq<u8> {
    let nb = vstd::utf8::encode_utf8(e.name@);
    FuseDirent { ino: e.ino, off, namelen: nb.len() as u32, typ: e.typ }.spec_bytes() + nb
        + zeros((dirent_size(nb.len()) - FUSE_DIRENT_SIZE - nb.len()) as nat)
}

/// The READDIR reply body for `entries` (the listing from position `base` on) in at most
/// `max` bytes: whole entries in order, stopping at the first that does not fit; entry `i`
/// says the next read starts at `base + i + 1`. Returns the body and whether it stopped
/// early.
pub open spec fn readdir_body(entries: Seq<DirEntry>, base: nat, max: nat, i: nat) -> (Seq<u8>, bool)
    decreases i,
{
    if i == 0 || i > entries.len() {
        (Seq::empty(), false)
    } else {
        let (buf, stopped) = readdir_body(entries, base, max, (i - 1) as nat);
        let e = entries[i - 1];
        let size = dirent_size(vstd::utf8::encode_utf8(e.name@).len());
        if stopped || buf.len() + size > max {
            (buf, true)
        } else {
            (buf + dirent_bytes(e, (base + i) as u64), false)
        }
    }
}

proof fn lemma_entry_size_is_dirent_size(n: nat, r: nat)
    requires
        r % 8 == 0,
        FUSE_DIRENT_SIZE + n <= r < FUSE_DIRENT_SIZE + n + 8,
    ensures
        r == dirent_size(n),
{
    let x = FUSE_DIRENT_SIZE + n + 7;
    assert(r == x / 8 * 8) by (nonlinear_arith)
        requires
            r % 8 == 0,
            x - 7 <= r < x + 1,
            x >= 7;
}

proof fn lemma_readdir_body_len(entries: Seq<DirEntry>, base: nat, max: nat, i: nat)
    ensures
        readdir_body(entries, base, max, i).0.len() <= max,
    decreases i,
{
    if i > 0 && i <= entries.len() {
        lemma_readdir_body_len(entries, base, max, (i - 1) as nat);
        let (buf, stopped) = readdir_body(entries, base, max, (i - 1) as nat);
        let e = entries[i - 1];
        let nb = vstd::utf8::encode_utf8(e.name@);
        crate::wire::lemma_le_roundtrip();
        assert(dirent_bytes(e, (base + i) as u64).len() == dirent_size(nb.len())) by {
            let s = dirent_size(nb.len());
            assert(s >= FUSE_DIRENT_SIZE + nb.len()) by (nonlinear_arith)
                requires
                    s == (FUSE_DIRENT_SIZE + nb.len() + 7) / 8 * 8;
        }
    }
}

/// The READDIR reply body for the listing `entries` (from position `offset` on) within
/// `max_size` bytes.
pub fn readdir_reply(entries: &[DirEntry], offset: u64, max_size: usize) -> (r: Vec<u8>)
    requires
        offset + entries@.len() + 1 <= u64::MAX,
        forall|i: int| 0 <= i < entries@.len() ==> vstd::utf8::encode_utf8((#[trigger] entries@[i]).name@).len() + 31 <= usize::MAX,
    ensures
        r@ == readdir_body(entries@, offset as nat, max_size as nat, entries@.len()).0,
        r@.len() <= max_size,
{
    let mut buf: Vec<u8> = Vec::new();
    let mut i: usize = 0;
    let n = entries.len();
    proof {
        crate::wire::lemma_le_roundtrip();
    }
    while i < n
        invariant
            n == entries@.len(),
            i <= n,
            offset + n + 1 <= u64::MAX,
            forall|j: int| 0 <= j < entries@.len() ==> vstd::utf8::encode_utf8((#[trigger] entries@[j]).name@).len() + 31 <= usize::MAX,
            buf@ == readdir_body(entries@, offset as nat, max_size as nat, i as nat).0,
            !readdir_body(entries@, offset as nat, max_size as nat, i as nat).1,
            buf@.len() <= max_size,
        decreases n - i,
    {
        let e = &entries[i];
        let name = e.name.as_str().as_bytes();
        let size = FuseDirent::entry_size(name.len());
        proof {
            lemma_entry_size_is_dirent_size(name@.len() as nat, size as nat);
            lemma_readdir_body_len(entries@, offset as nat, max_size as nat, (i + 1) as nat);
        }
        if size > max_size - buf.len() {
            proof {
                assert forall|k: nat| i + 1 <= k <= n implies readdir_body(entries@, offset as nat, max_size as nat, k).0 == buf@
                    && readdir_body(entries@, offset as nat, max_size as nat, k).1 by {
                    lemma_stopped_stays(entries@, offset as nat, max_size as nat, (i + 1) as nat, k);
                }
            }
            return buf;
        }
        let d = FuseDirent { ino: e.ino, off: offset + i as u64 + 1, namelen: name.len() as u32, typ: e.typ };
        let db = d.to_bytes();
        put_bytes(&mut buf, db.as_slice());
        put_bytes(&mut buf, name);
        put_zeros(&mut buf, size - FUSE_DIRENT_SIZE - name.len());
        proof {
            assert(buf@ =~= readdir_body(entries@, offset as nat, max_size as nat, i as nat).0
                + dirent_bytes(entries@[i as int], (offset + i + 1) as u64));
        }
        i = i + 1;
    }
    buf
}

/// Where entry `k` of the listing starts in a READDIR body that holds every entry before
/// it: the sizes of those entries, added up.
pub open spec fn entry_start(entries: Seq<DirEntry>, k: nat) -> nat
    decreases k,
{
    if k == 0 || k > entries.len() {
        0
    } else {
        entry_start(entries, (k - 1) as nat) + dirent_size(vstd::utf8::encode_utf8(entries[k - 1].name@).len())
    }
}

proof fn lemma_dirent_fields(e: DirEntry, off: u64)
    ensures
        dirent_bytes(e, off).len() == dirent_size(vstd::utf8::encode_utf8(e.name@).len()),
        dirent_bytes(e, off).len() >= 24,
        le64(dirent_bytes(e, off), 0) == e.ino,
        le64(dirent_bytes(e, off), 8) == off,
{
    crate::wire::lemma_le_roundtrip();
    let nb = vstd::utf8::encode_utf8(e.name@);
    let s = dirent_size(nb.len());
    assert(s >= FUSE_DIRENT_SIZE + nb.len()) by (nonlinear_arith)
        requires
            s == (FUSE_DIRENT_SIZE + nb.len() + 7) / 8 * 8;
    let b = dirent_bytes(e, off);
    assert(b.subrange(0, 8) =~= bytes64(e.ino));
    assert(b.subrange(8, 16) =~= bytes64(off));
    crate::wire::lemma_read_back_64(b, 0, e.ino);
    crate::wire::lemma_read_back_64(b, 8, off);
}

proof fn lemma_body_prefix(entries: Seq<DirEntry>, base: nat, max: nat, i: nat, j: nat)
    requires
        i <= j <= entries.len(),
    ensures
        readdir_body(entries, base, max, i).0.len() <= readdir_body(entries, base, max, j).0.len(),
        readdir_body(entries, base, max, j).0.subrange(0, readdir_body(entries, base, max, i).0.len() as int)
            == readdir_body(entries, base, max, i).0,
    decreases j - i,
{
    if i < j {
        lemma_body_prefix(entries, base, max, i, (j - 1) as nat);
        let bi = readdir_body(entries, base, max, i).0;
        let bp = readdir_body(entries, base, max, (j - 1) as nat).0;
        let bj = readdir_body(entries, base, max, j).0;
        assert(bj.subrange(0, bi.len() as int) =~= bp.subrange(0, bi.len() as int));
    } else {
        let bi = readdir_body(entries, base, max, i).0;
        assert(bi.subrange(0, bi.len() as int) =~= bi);
    }
}

proof fn lemma_body_start(entries: Seq<DirEntry>, base: nat, max: nat, i: nat)
    requires
        i <= entries.len(),
        !readdir_body(entries, base, max, i).1,
    ensures
        readdir_body(entries, base, max, i).0.len() == entry_start(entries, i),
    decreases i,
{
    if i > 0 {
        let e = entries[i - 1];
        lemma_dirent_fields(e, (base + i) as u64);
        lemma_body_start(entries, base, max, (i - 1) as nat);
    }
}

/// In a READDIR reply for the listing `entries` from position `base` on, every entry the
/// reply holds carries, as its offset, the position just after it: entry `k` (counted
/// from 0) stands at `entry_start(entries, k)`, with its inode number and offset
/// `base + k + 1`, so the offsets strictly increase and a read resumed at an entry's offset
/// starts with the entry after it.
pub proof fn law_readdir_entry_offsets(entries: Seq<DirEntry>, base: nat, max: nat, k: nat)
    requires
        k < entries.len(),
        base + entries.len() + 1 <= u64::MAX,
        !readdir_body(entries, base, max, k + 1).1,
    ensures
        ({
            let body = readdir_body(entries, base, max, entries.len()).0;
            let p = entry_start(entries, k) as int;
            &&& p + 24 <= body.len()
            &&& le64(body, p) == entries[k as int].ino
            &&& le64(body, p + 8) == base + k + 1
        }),
{
    let n = entries.len();
    let e = entries[k as int];
    let off = (base + k + 1) as u64;
    lemma_dirent_fields(e, off);
    let b0 = readdir_body(entries, base, max, k).0;
    let b1 = readdir_body(entries, base, max, k + 1).0;
    assert(!readdir_body(entries, base, max, k).1);
    assert(b1 == b0 + dirent_bytes(e, off));
    lemma_body_start(entries, base, max, k);
    lemma_body_prefix(entries, base, max, k + 1, n);
    let body = readdir_body(entries, base, max, n).0;
    let p = entry_start(entries, k) as int;
    let db = dirent_bytes(e, off);
    assert(body.subrange(p, p + 8) =~= db.subrange(0, 8)) by {
        assert forall|x: int| 0 <= x < 8 implies body[p + x] == #[trigger] db[x] by {
            assert(body[p + x] == b1[p + x]);
        }
    }
    assert(body.subrange(p + 8, p + 16) =~= db.subrange(8, 16)) by {
        assert forall|x: int| 8 <= x < 16 implies body[p + x] == #[trigger] db[x] by {
            assert(body[p + x] == b1[p + x]);
        }
    }
}

proof fn lemma_stopped_stays(entries: Seq<DirEntry>, base: nat, max: nat, i: nat, k: nat)
    requires
        i <= k <= entries.len(),
        readdir_body(entries, base, max, i).1,
        i >= 1,
    ensures
        readdir_body(entries, base, max, k).0 == readdir_body(entries, base, max, i).0,
        readdir_body(entries, base, max, k).1,
    decreases k - i,
{
    if k > i {
        lemma_stopped_stays(entries, base, max, i, (k - 1) as nat);
    }
}

} // verus!
