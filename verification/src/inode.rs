//! The shared-directory device's inode table: which host path each guest inode number
//! stands for, how many lookups the guest holds on it, and which host file each number was
//! given for. What the host's file system says (canonical paths, device and inode numbers)
//! is looked up by the caller and handed in.
use vstd::prelude::*;
use std::collections::HashMap;
use crate::text::{chars_of, concat2, concat3, find_char, owned, str_eq};

verus! {

broadcast use vstd::std_specs::hash::group_hash_axioms;

/// Inode number of the shared directory's root.
pub const ROOT_INODE: u64 = 1;
/// Most inodes the table holds at once.
pub const MAX_INODES: usize = 100_000;

/// `EINVAL`: invalid argument.
pub const EINVAL: i32 = 22;
/// `ENOENT`: no such file or directory.
pub const ENOENT: i32 = 2;
/// `EACCES`: permission denied.
pub const EACCES: i32 = 13;
/// `ENOSPC`: no space left.
pub const ENOSPC: i32 = 28;

/// `base` joined with `name` as `Path::join` joins them on Unix: an absolute `name`
/// replaces `base`; otherwise a `/` goes between them unless `base` is empty or already ends
/// in one.
pub open spec fn joined_path(base: Seq<char>, name: Seq<char>) -> Seq<char> {
    if name.len() > 0 && name[0] == '/' {
        name
    } else if base.len() == 0 || base.last() == '/' {
        base + name
    } else {
        base + seq!['/'] + name
    }
}

/// Whether `path` starts with `base` component by component, as `Path::starts_with` says.
pub uninterp spec fn path_has_prefix(path: Seq<char>, base: Seq<char>) -> bool;

/// `base` joined with `name` (see `joined_path`).
fn path_join(base: &str, name: &str) -> (r: String)
    ensures
        r@ == joined_path(base@, name@),
{
    let nc = chars_of(name);
    if nc.len() > 0 && nc[0] == '/' {
        return owned(name);
    }
    let bc = chars_of(base);
    if bc.len() == 0 || bc[bc.len() - 1] == '/' {
        return concat2(base, name);
    }
    let r = concat3(base, "/", name);
    proof {
        reveal_strlit("/");
        assert("/"@ =~= seq!['/']);
    }
    r
}

/// `Path::starts_with`.
#[verifier::external_body]
fn path_starts_with(path: &str, base: &str) -> (r: bool)
    ensures
        r == path_has_prefix(path@, base@),
{
    std::path::Path::new(path).starts_with(base)
}

/// A guest inode: the host path it stands for and the lookups the guest holds on it.
#[derive(Debug)]
pub struct InodeData {
    pub path: String,
    pub nlookup: u64,
}

/// The key a host file is known by: its device and inode numbers.
pub open spec fn host_key(dev: u64, ino: u64) -> u128 {
    (dev as int * 0x1_0000_0000_0000_0000 + ino as int) as u128
}

fn make_host_key(dev: u64, ino: u64) -> (r: u128)
    ensures
        r == host_key(dev, ino),
{
    proof {
        assert(dev as int * 0x1_0000_0000_0000_0000 + ino as int <= u128::MAX) by (nonlinear_arith)
            requires
                dev <= u64::MAX,
                ino <= u64::MAX;
    }
    (dev as u128) * 0x1_0000_0000_0000_0000u128 + (ino as u128)
}

/// The table as plain values.
pub struct InodeView {
    pub root: Seq<char>,
    /// Guest inode to (host path, lookup count).
    pub inodes: Map<u64, (Seq<char>, u64)>,
    /// Host file key to the guest inode given for it.
    pub host_keys: Map<u128, u64>,
    /// The number the next new inode gets.
    pub next_ino: u64,
}

/// Maps guest inode numbers to host paths.
pub struct InodeTable {
    host_root: String,
    by_guest_ino: HashMap<u64, InodeData>,
    by_host_key: HashMap<u128, u64>,
    next_ino: u64,
}

/// The shape every table keeps: the root inode stands for the root with one lookup held
/// at least, every inode number was handed out (is below `next_ino`), host keys name only
/// numbers above the root's, and the table holds at most `MAX_INODES` inodes.
pub open spec fn inode_wf(v: InodeView) -> bool {
    &&& v.inodes.contains_key(ROOT_INODE)
    &&& v.inodes[ROOT_INODE].0 == v.root
    &&& v.next_ino > ROOT_INODE
    &&& forall|i: u64| #[trigger] v.inodes.contains_key(i) ==> i < v.next_ino
    &&& forall|k: u128| #[trigger] v.host_keys.contains_key(k) ==> ROOT_INODE < v.host_keys[k] < v.next_ino
    &&& v.inodes.dom().finite()
    &&& v.inodes.len() <= MAX_INODES
}

/// Whether `name` may name a directory entry: no `/`, and neither `.` nor `..`.
pub open spec fn name_ok(name: Seq<char>) -> bool {
    &&& !name.contains('/')
    &&& name != "."@
    &&& name != ".."@
}

/// What recording a lookup of the host file at `canonical`, known by `dev` and `ino`, gives:
/// a file seen before gets its inode number again (with one more lookup, if the inode is
/// still held), a new file gets the next number with one lookup, unless the table is full
/// (`ENOSPC`, nothing changes).
pub open spec fn record_lookup_spec(v: InodeView, canonical: Seq<char>, dev: u64, ino: u64) -> (InodeView, Result<u64, i32>) {
    let k = host_key(dev, ino);
    if v.host_keys.contains_key(k) {
        let g = v.host_keys[k];
        let inodes = if v.inodes.contains_key(g) {
            v.inodes.insert(g, (v.inodes[g].0, (v.inodes[g].1 + 1) as u64))
        } else {
            v.inodes
        };
        (InodeView { root: v.root, inodes, host_keys: v.host_keys, next_ino: v.next_ino }, Ok(g))
    } else if v.inodes.len() >= MAX_INODES {
        (v, Err(ENOSPC))
    } else {
        (InodeView {
            root: v.root,
            inodes: v.inodes.insert(v.next_ino, (canonical, 1u64)),
            host_keys: v.host_keys.insert(k, v.next_ino),
            next_ino: (v.next_ino + 1) as u64,
        }, Ok(v.next_ino))
    }
}

/// A lookup of entry `name` of directory `parent`: `EINVAL` for a name that cannot name an
/// entry, `ENOENT` for an unknown directory; then the host resolves the entry's path
/// (`joined_path` of the directory's path and `name`) to `canonical` or an errno, a path
/// outside the shared directory is `EACCES`, the host gives the file's device and inode
/// numbers (`key`) or an errno, and the lookup is recorded (`record_lookup_spec`). This is
/// what `lookup_resolved` does.
pub open spec fn lookup_spec(
    v: InodeView,
    parent: u64,
    name: Seq<char>,
    canonical: Result<Seq<char>, i32>,
    key: Result<(u64, u64), i32>,
) -> (InodeView, Result<u64, i32>) {
    if !name_ok(name) {
        (v, Err(EINVAL))
    } else if !v.inodes.contains_key(parent) {
        (v, Err(ENOENT))
    } else {
        match canonical {
            Err(e) => (v, Err(e)),
            Ok(c) => if !path_has_prefix(c, v.root) {
                (v, Err(EACCES))
            } else {
                match key {
                    Err(e) => (v, Err(e)),
                    Ok((dev, ino)) => record_lookup_spec(v, c, dev, ino),
                }
            },
        }
    }
}

/// A resolved path, or the errno resolving it gave, as plain values.
pub open spec fn resolved_view(canonical: Result<String, i32>) -> Result<Seq<char>, i32> {
    match canonical {
        Ok(c) => Ok(c@),
        Err(e) => Err(e),
    }
}

impl View for InodeTable {
    type V = InodeView;

    closed spec fn view(&self) -> InodeView {
        InodeView {
            root: self.host_root@,
            inodes: self.by_guest_ino@.map_values(|d: InodeData| (d.path@, d.nlookup)),
            host_keys: self.by_host_key@,
            next_ino: self.next_ino,
        }
    }
}

impl InodeTable {
    proof fn lemma_view_dom(&self)
        ensures
            self@.inodes.dom() == self.by_guest_ino@.dom(),
            self@.inodes.dom().finite(),
            self@.inodes.len() == self.by_guest_ino@.len(),
    {
        assert(self@.inodes.dom() =~= self.by_guest_ino@.dom());
    }

    /// A table holding only the root inode, for `host_root`, with one lookup.
    pub fn new(host_root: &str) -> (r: InodeTable)
        ensures
            r@.root == host_root@,
            r@.inodes == Map::<u64, (Seq<char>, u64)>::empty().insert(ROOT_INODE, (host_root@, 1u64)),
            r@.host_keys == Map::<u128, u64>::empty(),
            r@.next_ino == ROOT_INODE + 1,
            inode_wf(r@),
    {
        let mut by_guest_ino: HashMap<u64, InodeData> = HashMap::new();
        by_guest_ino.insert(ROOT_INODE, InodeData { path: owned(host_root), nlookup: 1 });
        let r = InodeTable {
            host_root: owned(host_root),
            by_guest_ino,
            by_host_key: HashMap::new(),
            next_ino: ROOT_INODE + 1,
        };
        assert(r@.inodes =~= Map::<u64, (Seq<char>, u64)>::empty().insert(ROOT_INODE, (host_root@, 1u64)));
        assert(r@.inodes.dom() =~= set![ROOT_INODE]);
        r
    }

    /// The shared directory on the host.
    pub fn host_root(&self) -> (r: &str)
        ensures
            r@ == self@.root,
    {
        self.host_root.as_str()
    }

    /// The inode numbered `ino`, if the table holds it.
    pub fn get(&self, ino: u64) -> (r: Option<&InodeData>)
        ensures
            match r {
                Some(d) => self@.inodes.contains_key(ino) && self@.inodes[ino] == (d.path@, d.nlookup),
                None => !self@.inodes.contains_key(ino),
            },
    {
        self.by_guest_ino.get(&ino)
    }

    /// The host path of inode `ino`, if the table holds it.
    pub fn get_path(&self, ino: u64) -> (r: Option<&str>)
        ensures
            match r {
                Some(p) => self@.inodes.contains_key(ino) && self@.inodes[ino].0 == p@,
                None => !self@.inodes.contains_key(ino),
            },
    {
        match self.by_guest_ino.get(&ino) {
            Some(d) => Some(d.path.as_str()),
            None => None,
        }
    }

    /// Adds one lookup to inode `ino`, if the table holds it.
    pub fn incref(&mut self, ino: u64)
        requires
            inode_wf(old(self)@),
            old(self)@.inodes.contains_key(ino) ==> old(self)@.inodes[ino].1 < u64::MAX,
        ensures
            inode_wf(final(self)@),
            final(self)@.root == old(self)@.root,
            final(self)@.host_keys == old(self)@.host_keys,
            final(self)@.next_ino == old(self)@.next_ino,
            old(self)@.inodes.contains_key(ino) ==> final(self)@.inodes
                == old(self)@.inodes.insert(ino, (old(self)@.inodes[ino].0, (old(self)@.inodes[ino].1 + 1) as u64)),
            !old(self)@.inodes.contains_key(ino) ==> final(self)@.inodes == old(self)@.inodes,
    {
        proof { self.lemma_view_dom(); }
        let ghost v0 = self@;
        let updated = match self.by_guest_ino.get(&ino) {
            Some(d) => Some(InodeData { path: d.path.clone(), nlookup: d.nlookup + 1 }),
            None => None,
        };
        match updated {
            Some(d) => {
                self.by_guest_ino.insert(ino, d);
                assert(self@.inodes =~= v0.inodes.insert(ino, (v0.inodes[ino].0, (v0.inodes[ino].1 + 1) as u64)));
                assert(self@.inodes.dom() =~= v0.inodes.dom());
            },
            None => {},
        }
        proof {
            self.lemma_view_dom();
            assert(self@.host_keys == v0.host_keys);
        }
    }

    /// Checks that `name` may name an entry of a directory.
    pub fn check_name(name: &str) -> (r: Result<(), i32>)
        ensures
            r == (if name_ok(name@) { Ok::<(), i32>(()) } else { Err::<(), i32>(EINVAL) }),
    {
        let cs = chars_of(name);
        match find_char(cs.as_slice(), '/') {
            Some(_) => {
                proof { crate::text::lemma_first_index_of(name@, '/'); }
                return Err(EINVAL);
            },
            None => {
                proof { crate::text::lemma_first_index_of(name@, '/'); }
            },
        }
        if str_eq(name, ".") || str_eq(name, "..") {
            return Err(EINVAL);
        }
        Ok(())
    }

    /// The host path of entry `name` of directory `parent_ino`, before it is resolved:
    /// `EINVAL` for a name that cannot name an entry, `ENOENT` for an unknown directory.
    pub fn child_path(&self, parent_ino: u64, name: &str) -> (r: Result<String, i32>)
        ensures
            !name_ok(name@) ==> r == Err::<String, i32>(EINVAL),
            name_ok(name@) && !self@.inodes.contains_key(parent_ino) ==> r == Err::<String, i32>(ENOENT),
            name_ok(name@) && self@.inodes.contains_key(parent_ino) ==> r is Ok
                && r->Ok_0@ == joined_path(self@.inodes[parent_ino].0, name@),
    {
        match InodeTable::check_name(name) {
            Err(e) => return Err(e),
            Ok(()) => {},
        }
        match self.get_path(parent_ino) {
            Some(p) => Ok(path_join(p, name)),
            None => Err(ENOENT),
        }
    }

    /// Checks that a resolved path lies inside the shared directory (`EACCES` otherwise).
    pub fn check_within_root(&self, canonical: &str) -> (r: Result<String, i32>)
        ensures
            path_has_prefix(canonical@, self@.root) ==> r is Ok && r->Ok_0@ == canonical@,
            !path_has_prefix(canonical@, self@.root) ==> r == Err::<String, i32>(EACCES),
    {
        if !path_starts_with(canonical, self.host_root.as_str()) {
            return Err(EACCES);
        }
        Ok(owned(canonical))
    }

    /// Records a lookup of the host file at `canonical`, known by `dev` and `ino`: a file
    /// seen before gets its inode number again (and one more lookup), a new one gets a new
    /// number, unless the table is full (`ENOSPC`).
    pub fn record_lookup(&mut self, canonical: &str, dev: u64, ino: u64) -> (r: Result<u64, i32>)
        requires
            inode_wf(old(self)@),
            old(self)@.next_ino < u64::MAX,
            forall|i: u64| #[trigger] old(self)@.inodes.contains_key(i) ==> old(self)@.inodes[i].1 < u64::MAX,
        ensures
            (final(self)@, r) == record_lookup_spec(old(self)@, canonical@, dev, ino),
            inode_wf(final(self)@),
            final(self)@.root == old(self)@.root,
            ({
                let k = host_key(dev, ino);
                let v = old(self)@;
                let w = final(self)@;
                if v.host_keys.contains_key(k) {
                    let g = v.host_keys[k];
                    &&& r == Ok::<u64, i32>(g)
                    &&& w.host_keys == v.host_keys && w.next_ino == v.next_ino
                    &&& v.inodes.contains_key(g) ==> w.inodes == v.inodes.insert(g, (v.inodes[g].0, (v.inodes[g].1 + 1) as u64))
                    &&& !v.inodes.contains_key(g) ==> w.inodes == v.inodes
                } else if v.inodes.len() >= MAX_INODES {
                    r == Err::<u64, i32>(ENOSPC) && w == v
                } else {
                    &&& r == Ok::<u64, i32>(v.next_ino)
                    &&& !v.inodes.contains_key(v.next_ino)
                    &&& w.inodes == v.inodes.insert(v.next_ino, (canonical@, 1u64))
                    &&& w.host_keys == v.host_keys.insert(k, v.next_ino)
                    &&& w.next_ino == v.next_ino + 1
                }
            }),
    {
        proof { self.lemma_view_dom(); }
        let ghost v0 = self@;
        let key = make_host_key(dev, ino);
        let known = match self.by_host_key.get(&key) {
            Some(g) => Some(*g),
            None => None,
        };
        match known {
            Some(g) => {
                self.incref(g);
                return Ok(g);
            },
            None => {},
        }
        if self.by_guest_ino.len() >= MAX_INODES {
            return Err(ENOSPC);
        }
        let g = self.next_ino;
        self.next_ino = self.next_ino + 1;
        self.by_guest_ino.insert(g, InodeData { path: owned(canonical), nlookup: 1 });
        self.by_host_key.insert(key, g);
        proof {
            assert(!v0.inodes.contains_key(g));
            assert(self@.inodes =~= v0.inodes.insert(g, (canonical@, 1u64)));
            assert(self@.inodes.dom() =~= v0.inodes.dom().insert(g));
            self.lemma_view_dom();
        }
        Ok(g)
    }

    /// A lookup of entry `name` of directory `parent_ino`, given what the host said of it:
    /// `canonical` is the path `child_path` gave once resolved (or the errno resolving it
    /// gave), `key` the device and inode numbers of the file there (or the errno reading
    /// them gave). The name and the directory are checked first, then the resolved path must
    /// lie inside the shared directory, then the lookup is recorded.
    pub fn lookup_resolved(
        &mut self,
        parent_ino: u64,
        name: &str,
        canonical: Result<String, i32>,
        key: Result<(u64, u64), i32>,
    ) -> (r: Result<u64, i32>)
        requires
            inode_wf(old(self)@),
            old(self)@.next_ino < u64::MAX,
            forall|i: u64| #[trigger] old(self)@.inodes.contains_key(i) ==> old(self)@.inodes[i].1 < u64::MAX,
        ensures
            (final(self)@, r) == lookup_spec(old(self)@, parent_ino, name@, resolved_view(canonical), key),
            inode_wf(final(self)@),
    {
        match InodeTable::check_name(name) {
            Err(e) => return Err(e),
            Ok(()) => {},
        }
        if self.get_path(parent_ino).is_none() {
            return Err(ENOENT);
        }
        let resolved = match canonical {
            Err(e) => return Err(e),
            Ok(c) => c,
        };
        let inside = match self.check_within_root(resolved.as_str()) {
            Err(e) => return Err(e),
            Ok(c) => c,
        };
        let (dev, ino) = match key {
            Err(e) => return Err(e),
            Ok(k) => k,
        };
        self.record_lookup(inside.as_str(), dev, ino)
    }

    /// Drops `nlookup` lookups of inode `ino` (never the root). When none remain the
    /// inode is removed and its path returned, so that the caller can find the host key to
    /// forget as well.
    pub fn forget(&mut self, ino: u64, nlookup: u64) -> (r: Option<String>)
        requires
            inode_wf(old(self)@),
        ensures
            inode_wf(final(self)@),
            final(self)@.root == old(self)@.root,
            final(self)@.host_keys == old(self)@.host_keys,
            final(self)@.next_ino == old(self)@.next_ino,
            ({
                let v = old(self)@;
                let w = final(self)@;
                if ino == ROOT_INODE || !v.inodes.contains_key(ino) {
                    w.inodes == v.inodes && r is None
                } else if v.inodes[ino].1 <= nlookup {
                    w.inodes == v.inodes.remove(ino) && r is Some && r->0@ == v.inodes[ino].0
                } else {
                    w.inodes == v.inodes.insert(ino, (v.inodes[ino].0, (v.inodes[ino].1 - nlookup) as u64)) && r is None
                }
            }),
    {
        proof { self.lemma_view_dom(); }
        let ghost v0 = self@;
        if ino == ROOT_INODE {
            return None;
        }
        let current = match self.by_guest_ino.get(&ino) {
            Some(d) => Some((d.path.clone(), d.nlookup)),
            None => None,
        };
        match current {
            None => None,
            Some((path, count)) => {
                let left = count.saturating_sub(nlookup);
                if left == 0 {
                    self.by_guest_ino.remove(&ino);
                    proof {
                        assert(self@.inodes =~= v0.inodes.remove(ino));
                        assert(self@.inodes.dom() =~= v0.inodes.dom().remove(ino));
                        self.lemma_view_dom();
                        assert(self@.host_keys == v0.host_keys);
                    }
                    Some(path)
                } else {
                    self.by_guest_ino.insert(ino, InodeData { path, nlookup: left });
                    proof {
                        assert(self@.inodes =~= v0.inodes.insert(ino, (v0.inodes[ino].0, (v0.inodes[ino].1 - nlookup) as u64)));
                        assert(self@.inodes.dom() =~= v0.inodes.dom());
                        self.lemma_view_dom();
                        assert(self@.host_keys == v0.host_keys);
                    }
                    None
                }
            },
        }
    }

    /// Forgets the host file known by `dev` and `ino`.
    pub fn forget_host_key(&mut self, dev: u64, ino: u64)
        requires
            inode_wf(old(self)@),
        ensures
            inode_wf(final(self)@),
            final(self)@.root == old(self)@.root,
            final(self)@.inodes == old(self)@.inodes,
            final(self)@.next_ino == old(self)@.next_ino,
            final(self)@.host_keys == old(self)@.host_keys.remove(host_key(dev, ino)),
    {
        proof { self.lemma_view_dom(); }
        let ghost v0 = self@;
        let key = make_host_key(dev, ino);
        self.by_host_key.remove(&key);
        proof {
            assert(self@.inodes =~= v0.inodes);
            self.lemma_view_dom();
            assert(self@.host_keys =~= v0.host_keys.remove(host_key(dev, ino)));
            assert forall|k: u128| #[trigger] self@.host_keys.contains_key(k) implies ROOT_INODE < self@.host_keys[k] < self@.next_ino by {
                assert(v0.host_keys.contains_key(k));
            }
        }
    }

    /// Forgets the host file known by `dev` and `ino` and the inode given for it (the
    /// file was removed on the host).
    pub fn remove_host_file(&mut self, dev: u64, ino: u64)
        requires
            inode_wf(old(self)@),
        ensures
            inode_wf(final(self)@),
            final(self)@.root == old(self)@.root,
            final(self)@.next_ino == old(self)@.next_ino,
            final(self)@.host_keys == old(self)@.host_keys.remove(host_key(dev, ino)),
            old(self)@.host_keys.contains_key(host_key(dev, ino)) ==> final(self)@.inodes
                == old(self)@.inodes.remove(old(self)@.host_keys[host_key(dev, ino)]),
            !old(self)@.host_keys.contains_key(host_key(dev, ino)) ==> final(self)@.inodes == old(self)@.inodes,
    {
        proof { self.lemma_view_dom(); }
        let ghost v0 = self@;
        let key = make_host_key(dev, ino);
        match self.by_host_key.remove(&key) {
            Some(g) => {
                self.by_guest_ino.remove(&g);
                proof {
                    assert(self@.inodes =~= v0.inodes.remove(g));
                    assert(self@.inodes.dom() =~= v0.inodes.dom().remove(g));
                }
            },
            None => {
                assert(self@.inodes =~= v0.inodes);
            },
        }
        proof {
            self.lemma_view_dom();
            assert(self@.host_keys =~= v0.host_keys.remove(host_key(dev, ino)));
            assert forall|k: u128| #[trigger] self@.host_keys.contains_key(k) implies ROOT_INODE < self@.host_keys[k] < self@.next_ino by {
                assert(v0.host_keys.contains_key(k));
            }
        }
    }
}

/// The root inode is never dropped: forgetting it any number of times leaves the table
/// as it was.
pub proof fn law_root_survives_forget(v: InodeView, nlookup: u64)
    requires
        inode_wf(v),
    ensures
        v.inodes.contains_key(ROOT_INODE),
        v.inodes[ROOT_INODE].0 == v.root,
{
}

/// A new inode number differs from every number in use and from every number a host key
/// names, so numbers are never handed out twice.
pub proof fn law_new_inode_is_fresh(v: InodeView)
    requires
        inode_wf(v),
    ensures
        !v.inodes.contains_key(v.next_ino),
        forall|k: u128| #[trigger] v.host_keys.contains_key(k) ==> v.host_keys[k] != v.next_ino,
{
}

/// Distinct host files have distinct keys.
pub proof fn law_host_keys_distinct(d1: u64, i1: u64, d2: u64, i2: u64)
    requires
        (d1, i1) != (d2, i2),
    ensures
        host_key(d1, i1) != host_key(d2, i2),
{
    assert(host_key(d1, i1) != host_key(d2, i2)) by (nonlinear_arith)
        requires
            (d1, i1) != (d2, i2),
            d1 < 0x1_0000_0000_0000_0000,
            i1 < 0x1_0000_0000_0000_0000,
            d2 < 0x1_0000_0000_0000_0000,
            i2 < 0x1_0000_0000_0000_0000;
}


/// Every lookup that fails leaves the table as it was.
pub proof fn law_lookup_error_leaves_table(
    v: InodeView,
    parent: u64,
    name: Seq<char>,
    canonical: Result<Seq<char>, i32>,
    key: Result<(u64, u64), i32>,
)
    ensures
        lookup_spec(v, parent, name, canonical, key).1 is Err ==> lookup_spec(v, parent, name, canonical, key).0 == v,
{
}

/// Every inode a lookup hands out is above the root's (at least 2).
pub proof fn law_lookup_inode_above_root(
    v: InodeView,
    parent: u64,
    name: Seq<char>,
    canonical: Result<Seq<char>, i32>,
    key: Result<(u64, u64), i32>,
)
    requires
        inode_wf(v),
    ensures
        lookup_spec(v, parent, name, canonical, key).1 matches Ok(i) ==> i > ROOT_INODE,
{
}

/// Looking up the same entry again, while the host resolves it the same way, gives the same
/// inode and one more lookup on it (when the inode is still held): a file new to the table
/// (given the next number) holds two lookups after two.
pub proof fn law_lookup_repeat(
    v: InodeView,
    parent: u64,
    name: Seq<char>,
    canonical: Result<Seq<char>, i32>,
    key: Result<(u64, u64), i32>,
)
    requires
        inode_wf(v),
        v.next_ino < u64::MAX,
        lookup_spec(v, parent, name, canonical, key).1 is Ok,
    ensures
        ({
            let (w, r1) = lookup_spec(v, parent, name, canonical, key);
            let (w2, r2) = lookup_spec(w, parent, name, canonical, key);
            let i = r1->Ok_0;
            &&& r2 == r1
            &&& w.inodes.contains_key(i) && w.inodes[i].1 < u64::MAX ==> w2.inodes.contains_key(i)
                && w2.inodes[i].1 == w.inodes[i].1 + 1
            &&& i == v.next_ino ==> w2.inodes.contains_key(i) && w2.inodes[i].1 == 2
        }),
{
    let (w, r1) = lookup_spec(v, parent, name, canonical, key);
    let c = canonical->Ok_0;
    let (dev, ino) = key->Ok_0;
    let k = host_key(dev, ino);
    assert(w.root == v.root);
    assert(w.inodes.contains_key(parent));
    assert(w.host_keys.contains_key(k));
    assert(w.host_keys[k] == r1->Ok_0);
}

} // verus!
