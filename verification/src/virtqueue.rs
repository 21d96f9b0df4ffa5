//! Virtqueue processing over guest memory: walking a descriptor chain, gathering the bytes
//! the driver wrote, scattering a reply into the device-writable buffers, and moving the
//! available and used rings on. Guest memory is plain bytes from guest address 0.
use vstd::prelude::*;
use crate::virtio::{Descriptor, VirtioQueueState, MAX_DESCRIPTOR_LEN, min_nat, written_before};
use crate::wire::{le16, le32, le64, bytes16, bytes32, read_u16, read_u32, read_u64};

verus! {

/// Guest physical memory: byte `i` stands at guest address `i`.
pub struct GuestRam {
    bytes: Vec<u8>,
}

impl View for GuestRam {
    type V = Seq<u8>;

    closed spec fn view(&self) -> Seq<u8> {
        self.bytes@
    }
}

/// The `n` bytes at guest address `a`, when they all lie in memory.
pub open spec fn mem_read(m: Seq<u8>, a: int, n: nat) -> Option<Seq<u8>> {
    if 0 <= a && a + n <= m.len() {
        Some(m.subrange(a, a + n))
    } else {
        None
    }
}

/// The `u16` at `a`, or `dflt` when it does not lie in memory.
pub open spec fn mem_u16_or(m: Seq<u8>, a: int, dflt: u16) -> u16 {
    if 0 <= a && a + 2 <= m.len() { le16(m, a) } else { dflt }
}

/// The `u32` at `a`, or 0 when it does not lie in memory.
pub open spec fn mem_u32(m: Seq<u8>, a: int) -> u32 {
    if 0 <= a && a + 4 <= m.len() { le32(m, a) } else { 0 }
}

/// The `u64` at `a`, or 0 when it does not lie in memory.
pub open spec fn mem_u64(m: Seq<u8>, a: int) -> u64 {
    if 0 <= a && a + 8 <= m.len() { le64(m, a) } else { 0 }
}

/// Memory after writing `d` at `a`: the bytes that lie in memory are written, the rest of
/// `d` is lost.
pub open spec fn mem_write(m: Seq<u8>, a: int, d: Seq<u8>) -> Seq<u8> {
    Seq::new(m.len(), |i: int| if a <= i < a + d.len() { d[i - a] } else { m[i] })
}

impl GuestRam {
    /// Memory holding `bytes`.
    pub fn new(bytes: Vec<u8>) -> (r: GuestRam)
        ensures
            r@ == bytes@,
    {
        GuestRam { bytes }
    }

    /// The memory's bytes.
    pub fn as_bytes(&self) -> (r: &[u8])
        ensures
            r@ == self@,
    {
        self.bytes.as_slice()
    }

    /// Whether `n` bytes at `addr` lie in memory.
    fn fits(&self, addr: u64, n: u64) -> (r: bool)
        ensures
            r == (addr + n <= self@.len()),
    {
        let len = self.bytes.len() as u64;
        addr <= len && n <= len - addr
    }

    /// The `n` bytes at `addr`, when they all lie in memory.
    pub fn read(&self, addr: u64, n: u32) -> (r: Option<Vec<u8>>)
        ensures
            match mem_read(self@, addr as int, n as nat) {
                Some(b) => r matches Some(v) && v@ == b,
                None => r is None,
            },
    {
        if !self.fits(addr, n as u64) {
            return None;
        }
        let len = self.bytes.len();
        assert(addr <= len);
        let i = addr as usize;
        Some(crate::wire::copy_range(self.bytes.as_slice(), i, n as usize))
    }

    /// The `u16` at `addr`, or `dflt` when it does not lie in memory.
    pub fn read_u16_or(&self, addr: u64, dflt: u16) -> (r: u16)
        ensures
            r == mem_u16_or(self@, addr as int, dflt),
    {
        if !self.fits(addr, 2) {
            return dflt;
        }
        let len = self.bytes.len();
        assert(addr <= len);
        let i = addr as usize;
        read_u16(self.bytes.as_slice(), i)
    }

    /// The `u32` at `addr`, or 0 when it does not lie in memory.
    pub fn read_u32(&self, addr: u64) -> (r: u32)
        ensures
            r == mem_u32(self@, addr as int),
    {
        if !self.fits(addr, 4) {
            return 0;
        }
        let len = self.bytes.len();
        assert(addr <= len);
        let i = addr as usize;
        read_u32(self.bytes.as_slice(), i)
    }

    /// The `u64` at `addr`, or 0 when it does not lie in memory.
    pub fn read_u64(&self, addr: u64) -> (r: u64)
        ensures
            r == mem_u64(self@, addr as int),
    {
        if !self.fits(addr, 8) {
            return 0;
        }
        let len = self.bytes.len();
        assert(addr <= len);
        let i = addr as usize;
        read_u64(self.bytes.as_slice(), i)
    }

    /// Writes `data` at `addr`; the bytes that fall outside memory are lost.
    pub fn write(&mut self, addr: u64, data: &[u8])
        ensures
            final(self)@ == mem_write(old(self)@, addr as int, data@),
    {
        let len = self.bytes.len();
        let mut j: usize = 0;
        while j < data.len()
            invariant
                j <= data@.len(),
                len == self.bytes@.len(),
                len == old(self)@.len(),
                forall|i: int| 0 <= i < len ==> #[trigger] self.bytes@[i] == (
                    if addr <= i < addr + j { data@[i - addr] } else { old(self)@[i] }),
            decreases data@.len() - j,
        {
            if addr <= len as u64 && (j as u64) < len as u64 - addr {
                let i = (addr + j as u64) as usize;
                self.bytes.set(i, data[j]);
            }
            j = j + 1;
        }
        assert(self.bytes@ =~= mem_write(old(self)@, addr as int, data@));
    }
}

/// The descriptor at index `idx` of the table at `table`; a field outside memory reads 0.
pub open spec fn desc_at(m: Seq<u8>, table: u64, idx: u16) -> Descriptor {
    let a = table + idx * 16;
    Descriptor {
        addr: mem_u64(m, a),
        len: mem_u32(m, a + 8),
        flags: mem_u16_or(m, a + 12, 0),
        next: mem_u16_or(m, a + 14, 0),
    }
}

/// The chain starting at descriptor `idx`, followed through `next` while a descriptor says
/// the chain continues, cut after `fuel` descriptors.
pub open spec fn chain(m: Seq<u8>, table: u64, idx: u16, fuel: nat) -> Seq<Descriptor>
    decreases fuel,
{
    if fuel == 0 {
        Seq::empty()
    } else {
        let d = desc_at(m, table, idx);
        if d.spec_has_next() {
            seq![d] + chain(m, table, d.next, (fuel - 1) as nat)
        } else {
            seq![d]
        }
    }
}

/// Whether following the chain from descriptor `idx` reaches, within `n` descriptors, one
/// that does not say the chain continues.
pub open spec fn chain_ends(m: Seq<u8>, table: u64, idx: u16, n: nat) -> bool
    decreases n,
{
    if n == 0 {
        false
    } else {
        let d = desc_at(m, table, idx);
        !d.spec_has_next() || chain_ends(m, table, d.next, (n - 1) as nat)
    }
}

/// Whether the chain starting at `head` ends, rather than looping back on itself.
pub open spec fn chain_terminates(m: Seq<u8>, table: u64, head: u16) -> bool {
    exists|n: nat| chain_ends(m, table, head, n)
}

/// The whole chain starting at `head`: followed through `next` up to and including the
/// first descriptor that does not say the chain continues.
#[verifier::opaque]
pub open spec fn descriptor_chain(m: Seq<u8>, table: u64, head: u16) -> Seq<Descriptor> {
    chain(m, table, head, choose|n: nat| chain_ends(m, table, head, n))
}

proof fn lemma_chain_stable(m: Seq<u8>, table: u64, idx: u16, n: nat, k: nat)
    requires
        chain_ends(m, table, idx, n),
        n <= k,
    ensures
        chain(m, table, idx, k) == chain(m, table, idx, n),
    decreases n,
{
    let d = desc_at(m, table, idx);
    if d.spec_has_next() {
        lemma_chain_stable(m, table, d.next, (n - 1) as nat, (k - 1) as nat);
    }
}

/// Once the chain from `idx` ends within `n` descriptors, following it `n` steps gives the
/// whole chain.
proof fn lemma_descriptor_chain(m: Seq<u8>, table: u64, idx: u16, n: nat)
    requires
        chain_ends(m, table, idx, n),
    ensures
        descriptor_chain(m, table, idx) == chain(m, table, idx, n),
{
    reveal(descriptor_chain);
    let c = choose|c: nat| chain_ends(m, table, idx, c);
    if c <= n {
        lemma_chain_stable(m, table, idx, c, n);
    } else {
        lemma_chain_stable(m, table, idx, n, c);
    }
}

/// Descriptor tables and rings lie low enough that every entry address of a queue of up to
/// 65536 entries is a `u64`.
pub open spec fn queue_addresses_fit(q: VirtioQueueState) -> bool {
    &&& q.desc_table + 0x10_0000 <= u64::MAX
    &&& q.avail_ring + 0x2_0010 <= u64::MAX
    &&& q.used_ring + 0x8_0010 <= u64::MAX
}

/// Reads descriptor `idx` of the table at `table`.
pub fn read_descriptor(mem: &GuestRam, table: u64, idx: u16) -> (r: Descriptor)
    requires
        table + 0x10_0000 <= u64::MAX,
    ensures
        r == desc_at(mem@, table, idx),
{
    let a = table + idx as u64 * 16;
    Descriptor {
        addr: mem.read_u64(a),
        len: mem.read_u32(a + 8),
        flags: mem.read_u16_or(a + 12, 0),
        next: mem.read_u16_or(a + 14, 0),
    }
}

/// The descriptor chain starting at `head`, followed until a descriptor that does not say
/// the chain continues.
pub fn walk_chain(mem: &GuestRam, table: u64, head: u16) -> (r: Vec<Descriptor>)
    requires
        table + 0x10_0000 <= u64::MAX,
        chain_terminates(mem@, table, head),
    ensures
        r@ == descriptor_chain(mem@, table, head),
{
    let ghost n0: nat = choose|n: nat| chain_ends(mem@, table, head, n);
    proof {
        lemma_descriptor_chain(mem@, table, head, n0);
    }
    let ghost whole = chain(mem@, table, head, n0);
    let mut r: Vec<Descriptor> = Vec::new();
    let mut idx = head;
    let ghost mut n: nat = n0;
    loop
        invariant_except_break
            chain_ends(mem@, table, idx, n),
            r@ + chain(mem@, table, idx, n) == whole,
        invariant
            table + 0x10_0000 <= u64::MAX,
            whole == descriptor_chain(mem@, table, head),
        ensures
            r@ == whole,
        decreases n,
    {
        let d = read_descriptor(mem, table, idx);
        let ghost rest = chain(mem@, table, idx, n);
        r.push(d);
        if d.has_next() {
            proof {
                assert(rest == seq![d] + chain(mem@, table, d.next, (n - 1) as nat));
                assert(r@ + chain(mem@, table, d.next, (n - 1) as nat) =~= whole);
                n = (n - 1) as nat;
            }
            idx = d.next;
        } else {
            proof {
                assert(rest == seq![d]);
                assert(r@ =~= whole);
            }
            break;
        }
    }
    r
}

/// The bytes the device reads from the first `i` descriptors of `descs`: each buffer the
/// driver wrote, cut at `MAX_DESCRIPTOR_LEN`, in order; a buffer that does not lie wholly
/// in memory gives nothing.
pub open spec fn gathered(m: Seq<u8>, descs: Seq<Descriptor>, i: nat) -> Seq<u8>
    decreases i,
{
    if i == 0 || i > descs.len() {
        Seq::empty()
    } else {
        let d = descs[i - 1];
        let rest = gathered(m, descs, (i - 1) as nat);
        if d.spec_write_only() {
            rest
        } else {
            match mem_read(m, d.addr as int, min_nat(d.len as nat, MAX_DESCRIPTOR_LEN as nat)) {
                Some(b) => rest + b,
                None => rest,
            }
        }
    }
}

/// The request the chain starting at `head` carries: the bytes of its driver-written buffers.
pub fn read_chain(mem: &GuestRam, table: u64, head: u16) -> (r: Vec<u8>)
    requires
        table + 0x10_0000 <= u64::MAX,
        chain_terminates(mem@, table, head),
    ensures
        ({
            let descs = descriptor_chain(mem@, table, head);
            r@ == gathered(mem@, descs, descs.len())
        }),
{
    let descs = walk_chain(mem, table, head);
    let mut out: Vec<u8> = Vec::new();
    let mut i: usize = 0;
    while i < descs.len()
        invariant
            i <= descs@.len(),
            out@ == gathered(mem@, descs@, i as nat),
        decreases descs@.len() - i,
    {
        let d = descs[i];
        if !d.is_write_only() {
            let n = if d.len < MAX_DESCRIPTOR_LEN { d.len } else { MAX_DESCRIPTOR_LEN };
            match mem.read(d.addr, n) {
                Some(b) => {
                    crate::wire::put_bytes(&mut out, b.as_slice());
                },
                None => {},
            }
        }
        i = i + 1;
    }
    out
}


/// Memory after a reply `resp` is laid into the first `i` descriptors of `descs`: each
/// device-writable buffer, while bytes remain, receives the next bytes up to its length.
pub open spec fn scatter(m: Seq<u8>, descs: Seq<Descriptor>, resp: Seq<u8>, i: nat) -> Seq<u8>
    decreases i,
{
    if i == 0 || i > descs.len() {
        m
    } else {
        let prev = scatter(m, descs, resp, (i - 1) as nat);
        let w = written_before(descs, (i - 1) as nat, resp.len());
        let d = descs[i - 1];
        if d.spec_write_only() && w < resp.len() {
            let n = min_nat((resp.len() - w) as nat, d.len as nat);
            mem_write(prev, d.addr as int, resp.subrange(w as int, (w + n) as int))
        } else {
            prev
        }
    }
}

/// Lays the reply `resp` into the device-writable buffers of the chain starting at `head`.
pub fn write_chain(mem: &mut GuestRam, table: u64, head: u16, resp: &[u8])
    requires
        table + 0x10_0000 <= u64::MAX,
        chain_terminates(old(mem)@, table, head),
    ensures
        ({
            let descs = descriptor_chain(old(mem)@, table, head);
            final(mem)@ == scatter(old(mem)@, descs, resp@, descs.len())
        }),
{
    let descs = walk_chain(mem, table, head);
    let ghost m0 = mem@;
    let total = resp.len();
    let mut written: usize = 0;
    let mut i: usize = 0;
    while i < descs.len()
        invariant
            i <= descs@.len(),
            total == resp@.len(),
            written == written_before(descs@, i as nat, total as nat),
            written <= total,
            mem@ == scatter(m0, descs@, resp@, i as nat),
        decreases descs@.len() - i,
    {
        let d = descs[i];
        if d.is_write_only() && written < total {
            let remaining = total - written;
            let n = if (d.len as usize) < remaining { d.len as usize } else { remaining };
            let part = vstd::slice::slice_subrange(resp, written, written + n);
            mem.write(d.addr, part);
            written = written + n;
        }
        i = i + 1;
    }
}

/// `x + 1` wrapping at 65536, as the ring indices count.
pub open spec fn next_index(x: u16) -> u16 {
    if x == u16::MAX { 0 } else { (x + 1) as u16 }
}

fn next_index_exec(x: u16) -> (r: u16)
    ensures
        r == next_index(x),
{
    if x == u16::MAX { 0 } else { x + 1 }
}

/// The driver's available index, read as the queue's own position when it does not lie in
/// memory.
pub open spec fn avail_index(m: Seq<u8>, q: VirtioQueueState) -> u16 {
    mem_u16_or(m, q.avail_ring + 2, q.next_avail)
}

/// The head of the chain in the available-ring slot for position `pos`.
pub open spec fn avail_head(m: Seq<u8>, q: VirtioQueueState, pos: u16) -> u16 {
    mem_u16_or(m, q.avail_ring + 4 + 2 * (pos % q.size), 0)
}

/// Takes the next chain the driver made available: none when the queue's position has
/// reached the driver's available index; otherwise the head in the ring slot for the
/// position, and the position moves on by one.
pub fn pop_avail(mem: &GuestRam, q: &mut VirtioQueueState) -> (r: Option<u16>)
    requires
        old(q).size > 0,
        queue_addresses_fit(*old(q)),
    ensures
        avail_index(mem@, *old(q)) == old(q).next_avail ==> r is None && *final(q) == *old(q),
        avail_index(mem@, *old(q)) != old(q).next_avail ==> r == Some(avail_head(mem@, *old(q), old(q).next_avail))
            && *final(q) == (VirtioQueueState { next_avail: next_index(old(q).next_avail), ..*old(q) }),
{
    let avail = mem.read_u16_or(q.avail_ring + 2, q.next_avail);
    if avail == q.next_avail {
        return None;
    }
    let a = crate::virtio::avail_entry_addr(q.avail_ring, q.next_avail, q.size);
    let head = mem.read_u16_or(a, 0);
    q.next_avail = next_index_exec(q.next_avail);
    Some(head)
}

/// Memory after the used-ring element for chain `head` with `len` bytes written is placed
/// at position `pos` and the used index is set to the position after it.
pub open spec fn used_written(m: Seq<u8>, q: VirtioQueueState, pos: u16, head: u16, len: u32) -> Seq<u8> {
    let e = q.used_ring + 4 + 8 * (pos % q.size);
    mem_write(
        mem_write(mem_write(m, e, bytes32(head as u32)), e + 4, bytes32(len)),
        q.used_ring + 2,
        bytes16(next_index(pos)),
    )
}

/// Returns chain `head` to the driver with `len` bytes written: the used-ring element at
/// the queue's used position, then the used index moved on by one.
pub fn push_used(mem: &mut GuestRam, q: &mut VirtioQueueState, head: u16, len: u32)
    requires
        old(q).size > 0,
        queue_addresses_fit(*old(q)),
    ensures
        final(mem)@ == used_written(old(mem)@, *old(q), old(q).next_used, head, len),
        *final(q) == (VirtioQueueState { next_used: next_index(old(q).next_used), ..*old(q) }),
{
    let e = crate::virtio::used_entry_addr(q.used_ring, q.next_used, q.size);
    let mut hb: Vec<u8> = Vec::new();
    crate::wire::put_u32(&mut hb, head as u32);
    assert(hb@ =~= bytes32(head as u32));
    mem.write(e, hb.as_slice());
    let mut lb: Vec<u8> = Vec::new();
    crate::wire::put_u32(&mut lb, len);
    assert(lb@ =~= bytes32(len));
    mem.write(e + 4, lb.as_slice());
    q.next_used = next_index_exec(q.next_used);
    let mut ib: Vec<u8> = Vec::new();
    crate::wire::put_u16(&mut ib, q.next_used);
    assert(ib@ =~= bytes16(q.next_used));
    mem.write(q.used_ring + 2, ib.as_slice());
}


/// The ring position `k` steps after `start`.
pub open spec fn ring_pos(start: u16, k: int) -> u16 {
    ((start + k) % 65536) as u16
}

/// How many chains the driver has made available beyond the queue's position.
pub open spec fn avail_count(m: Seq<u8>, q: VirtioQueueState) -> nat {
    ((avail_index(m, q) - q.next_avail + 65536) % 65536) as nat
}

/// The request the chain starting at `head` carries, for the queue `q`.
pub open spec fn chain_request(m: Seq<u8>, q: VirtioQueueState, head: u16) -> Seq<u8> {
    let descs = descriptor_chain(m, q.desc_table, head);
    gathered(m, descs, descs.len())
}

proof fn lemma_ring_pos_step(start: u16, k: int)
    requires
        0 <= k,
    ensures
        next_index(ring_pos(start, k)) == ring_pos(start, k + 1),
{
}

/// The head of the `k`-th chain the driver has made available beyond the queue's position.
pub open spec fn pending_head(m: Seq<u8>, q: VirtioQueueState, k: int) -> u16 {
    avail_head(m, q, ring_pos(q.next_avail, k))
}

/// Takes every chain the driver has made available, in ring order, each with its head and
/// the request it carries; the queue's position moves to the driver's available index.
/// Each of those chains must end: a chain that loops back on itself is never finished.
pub fn take_requests(mem: &GuestRam, q: &mut VirtioQueueState) -> (r: Vec<(u16, Vec<u8>)>)
    requires
        old(q).size > 0,
        queue_addresses_fit(*old(q)),
        forall|k: int| 0 <= k < avail_count(mem@, *old(q))
            ==> chain_terminates(mem@, old(q).desc_table, #[trigger] pending_head(mem@, *old(q), k)),
    ensures
        r@.len() == avail_count(mem@, *old(q)),
        forall|k: int| 0 <= k < r@.len() ==> {
            let head = pending_head(mem@, *old(q), k);
            &&& (#[trigger] r@[k]).0 == head
            &&& r@[k].1@ == chain_request(mem@, *old(q), head)
        },
        *final(q) == (VirtioQueueState { next_avail: avail_index(mem@, *old(q)), ..*old(q) }),
{
    let ghost q0 = *q;
    let ghost a = avail_index(mem@, q0);
    let ghost count = avail_count(mem@, q0);
    let mut r: Vec<(u16, Vec<u8>)> = Vec::new();
    loop
        invariant
            q0.size > 0,
            queue_addresses_fit(q0),
            a == avail_index(mem@, q0),
            count == avail_count(mem@, q0),
            forall|k: int| 0 <= k < count
                ==> chain_terminates(mem@, q0.desc_table, #[trigger] pending_head(mem@, q0, k)),
            r@.len() <= count,
            *q == (VirtioQueueState { next_avail: ring_pos(q0.next_avail, r@.len() as int), ..q0 }),
            forall|k: int| 0 <= k < r@.len() ==> {
                let head = pending_head(mem@, q0, k);
                &&& (#[trigger] r@[k]).0 == head
                &&& r@[k].1@ == chain_request(mem@, q0, head)
            },
        ensures
            r@.len() == count,
            *q == (VirtioQueueState { next_avail: a, ..q0 }),
            forall|k: int| 0 <= k < r@.len() ==> {
                let head = pending_head(mem@, q0, k);
                &&& (#[trigger] r@[k]).0 == head
                &&& r@[k].1@ == chain_request(mem@, q0, head)
            },
        decreases count - r@.len(),
    {
        let ghost k = r@.len() as int;
        proof {
            assert(avail_index(mem@, *q) == if 0 <= q0.avail_ring + 2 && q0.avail_ring + 2 + 2 <= mem@.len() { a } else { q.next_avail });
        }
        match pop_avail(mem, q) {
            None => {
                proof {
                    if 0 <= q0.avail_ring + 2 && q0.avail_ring + 2 + 2 <= mem@.len() {
                        assert(ring_pos(q0.next_avail, k) == a);
                        assert(k == count);
                    } else {
                        assert(a == q0.next_avail);
                        assert(k == 0);
                        assert(ring_pos(q0.next_avail, 0) == q0.next_avail);
                    }
                }
                break;
            },
            Some(head) => {
                proof {
                    lemma_ring_pos_step(q0.next_avail, k);
                    assert(0 <= q0.avail_ring + 2 && q0.avail_ring + 2 + 2 <= mem@.len());
                    assert(ring_pos(q0.next_avail, k) != a);
                    assert(k < count);
                    assert(head == pending_head(mem@, q0, k));
                }
                let req = read_chain(mem, q.desc_table, head);
                r.push((head, req));
            },
        }
    }
    r
}

/// Memory and used position after the replies `resps[..k]` are returned in order: each
/// laid into its chain, then placed on the used ring with its length.
pub open spec fn completed(m: Seq<u8>, q: VirtioQueueState, resps: Seq<(u16, Seq<u8>)>, k: nat) -> (Seq<u8>, u16)
    decreases k,
{
    if k == 0 || k > resps.len() {
        (m, q.next_used)
    } else {
        let (m1, pos) = completed(m, q, resps, (k - 1) as nat);
        let (head, resp) = resps[k - 1];
        let descs = descriptor_chain(m1, q.desc_table, head);
        let m2 = scatter(m1, descs, resp, descs.len());
        (used_written(m2, q, pos, head, resp.len() as u32), next_index(pos))
    }
}

/// The replies `resps` as heads and byte sequences.
pub open spec fn reply_views(resps: Seq<(u16, Vec<u8>)>) -> Seq<(u16, Seq<u8>)> {
    resps.map_values(|p: (u16, Vec<u8>)| (p.0, p.1@))
}

/// Returns each reply of `resps` to the driver, in order: laid into the device-writable
/// buffers of its chain and placed on the used ring with its length (cut to 32 bits); the
/// queue's used position moves on by one per reply. The chain of each reply must end in
/// memory as the replies before it left it.
pub fn complete_requests(mem: &mut GuestRam, q: &mut VirtioQueueState, resps: &[(u16, Vec<u8>)])
    requires
        old(q).size > 0,
        queue_addresses_fit(*old(q)),
        forall|k: nat| k < resps@.len() ==> chain_terminates(
            (#[trigger] completed(old(mem)@, *old(q), reply_views(resps@), k)).0,
            old(q).desc_table,
            resps@[k as int].0,
        ),
    ensures
        ({
            let rs = reply_views(resps@);
            let (m, pos) = completed(old(mem)@, *old(q), rs, rs.len());
            &&& final(mem)@ == m
            &&& *final(q) == (VirtioQueueState { next_used: pos, ..*old(q) })
        }),
{
    let ghost q0 = *q;
    let ghost m0 = mem@;
    let ghost rs = reply_views(resps@);
    let mut i: usize = 0;
    while i < resps.len()
        invariant
            i <= resps@.len(),
            q0.size > 0,
            queue_addresses_fit(q0),
            rs == reply_views(resps@),
            forall|k: nat| k < resps@.len() ==> chain_terminates(
                (#[trigger] completed(m0, q0, rs, k)).0,
                q0.desc_table,
                resps@[k as int].0,
            ),
            mem@ == completed(m0, q0, rs, i as nat).0,
            *q == (VirtioQueueState { next_used: completed(m0, q0, rs, i as nat).1, ..q0 }),
        decreases resps@.len() - i,
    {
        let head = resps[i].0;
        let resp = resps[i].1.as_slice();
        proof {
            assert(rs[i as int] == (head, resp@));
            assert(chain_terminates(completed(m0, q0, rs, i as nat).0, q0.desc_table, resps@[i as int].0));
        }
        write_chain(mem, q.desc_table, head, resp);
        push_used(mem, q, head, resp.len() as u32);
        i = i + 1;
    }
}

} // verus!
