//! The socket device's protocol logic: packet headers, the table of open connections,
//! and the replies and bridge messages each guest packet gives rise to.
use vstd::prelude::*;
use crate::wire::{copy_range, le16, le32, le64, bytes16, bytes32, bytes64, read_u16, read_u32, read_u64, put_u16, put_u32, put_u64, put_bytes, lemma_le_roundtrip, lemma_read_back_16, lemma_read_back_32, lemma_read_back_64};
use crate::config::VsockPortConfig;
use crate::text::owned;
use std::collections::{HashMap, VecDeque};
use vstd::std_specs::hash::spec_hash_map_iter;
use vstd::std_specs::iter::IteratorSpec;

verus! {

broadcast use vstd::std_specs::hash::group_hash_axioms;

/// Size of a socket packet header.
pub const VSOCK_HDR_SIZE: usize = 44;

pub const VSOCK_OP_REQUEST: u16 = 1;
pub const VSOCK_OP_RESPONSE: u16 = 2;
pub const VSOCK_OP_RST: u16 = 3;
pub const VSOCK_OP_SHUTDOWN: u16 = 4;
pub const VSOCK_OP_RW: u16 = 5;
pub const VSOCK_OP_CREDIT_UPDATE: u16 = 6;
pub const VSOCK_OP_CREDIT_REQUEST: u16 = 7;

/// Socket type: stream (the only one supported).
pub const VSOCK_TYPE_STREAM: u16 = 1;

/// Context id of the host.
pub const VSOCK_HOST_CID: u64 = 2;
/// Context id given to the guest.
pub const VSOCK_GUEST_CID: u64 = 3;

/// Receive buffer the host announces for credit-based flow control (64 KiB).
pub const VSOCK_BUF_ALLOC: u32 = 65536;

/// A socket packet header (44 bytes, little-endian).
#[derive(Clone, Copy, Debug, Default, PartialEq, Eq, Structural)]
pub struct VsockHeader {
    pub src_cid: u64,
    pub dst_cid: u64,
    pub src_port: u32,
    pub dst_port: u32,
    pub len: u32,
    pub type_: u16,
    pub op: u16,
    pub flags: u32,
    pub buf_alloc: u32,
    pub fwd_cnt: u32,
}

impl VsockHeader {
    /// The header the first 44 bytes of `s` encode.
    pub open spec fn parse(s: Seq<u8>) -> VsockHeader {
        VsockHeader {
            src_cid: le64(s, 0),
            dst_cid: le64(s, 8),
            src_port: le32(s, 16),
            dst_port: le32(s, 20),
            len: le32(s, 24),
            type_: le16(s, 28),
            op: le16(s, 30),
            flags: le32(s, 32),
            buf_alloc: le32(s, 36),
            fwd_cnt: le32(s, 40),
        }
    }

    /// The 44 bytes that encode this header.
    pub open spec fn spec_bytes(self) -> Seq<u8> {
        bytes64(self.src_cid) + bytes64(self.dst_cid) + bytes32(self.src_port) + bytes32(self.dst_port)
            + bytes32(self.len) + bytes16(self.type_) + bytes16(self.op) + bytes32(self.flags)
            + bytes32(self.buf_alloc) + bytes32(self.fwd_cnt)
    }

    /// Parses the first 44 bytes of `data`; `None` when it is shorter.
    pub fn from_bytes(data: &[u8]) -> (r: Option<VsockHeader>)
        ensures
            r == (if data@.len() < VSOCK_HDR_SIZE { None } else { Some(VsockHeader::parse(data@)) }),
    {
        if data.len() < VSOCK_HDR_SIZE {
            return None;
        }
        Some(VsockHeader {
            src_cid: read_u64(data, 0),
            dst_cid: read_u64(data, 8),
            src_port: read_u32(data, 16),
            dst_port: read_u32(data, 20),
            len: read_u32(data, 24),
            type_: read_u16(data, 28),
            op: read_u16(data, 30),
            flags: read_u32(data, 32),
            buf_alloc: read_u32(data, 36),
            fwd_cnt: read_u32(data, 40),
        })
    }

    /// The 44-byte encoding.
    pub fn to_bytes(self) -> (r: Vec<u8>)
        ensures
            r@ == self.spec_bytes(),
            r@.len() == VSOCK_HDR_SIZE,
    {
        proof {
            lemma_le_roundtrip();
        }
        let mut buf: Vec<u8> = Vec::new();
        put_u64(&mut buf, self.src_cid);
        put_u64(&mut buf, self.dst_cid);
        put_u32(&mut buf, self.src_port);
        put_u32(&mut buf, self.dst_port);
        put_u32(&mut buf, self.len);
        put_u16(&mut buf, self.type_);
        put_u16(&mut buf, self.op);
        put_u32(&mut buf, self.flags);
        put_u32(&mut buf, self.buf_alloc);
        put_u32(&mut buf, self.fwd_cnt);
        buf
    }
}

/// Encoding a header and parsing the bytes gives the header back, and the encoding is
/// 44 bytes long.
pub proof fn law_header_roundtrip(h: VsockHeader)
    ensures
        h.spec_bytes().len() == VSOCK_HDR_SIZE,
        VsockHeader::parse(h.spec_bytes()) == h,
{
    lemma_le_roundtrip();
    let b = h.spec_bytes();
    assert(b.subrange(0, 8) =~= bytes64(h.src_cid));
    assert(b.subrange(8, 16) =~= bytes64(h.dst_cid));
    assert(b.subrange(16, 20) =~= bytes32(h.src_port));
    assert(b.subrange(20, 24) =~= bytes32(h.dst_port));
    assert(b.subrange(24, 28) =~= bytes32(h.len));
    assert(b.subrange(28, 30) =~= bytes16(h.type_));
    assert(b.subrange(30, 32) =~= bytes16(h.op));
    assert(b.subrange(32, 36) =~= bytes32(h.flags));
    assert(b.subrange(36, 40) =~= bytes32(h.buf_alloc));
    assert(b.subrange(40, 44) =~= bytes32(h.fwd_cnt));
    lemma_read_back_64(b, 0, h.src_cid);
    lemma_read_back_64(b, 8, h.dst_cid);
    lemma_read_back_32(b, 16, h.src_port);
    lemma_read_back_32(b, 20, h.dst_port);
    lemma_read_back_32(b, 24, h.len);
    lemma_read_back_16(b, 28, h.type_);
    lemma_read_back_16(b, 30, h.op);
    lemma_read_back_32(b, 32, h.flags);
    lemma_read_back_32(b, 36, h.buf_alloc);
    lemma_read_back_32(b, 40, h.fwd_cnt);
}


/// One open connection, keyed by the host port and the guest port.
#[derive(Clone, Copy, Debug, PartialEq, Eq, Structural)]
pub struct ConnEntry {
    pub local_port: u32,
    pub peer_port: u32,
    /// Bytes forwarded from the guest to the host so far (wrapping).
    pub fwd_cnt: u32,
    /// The guest's announced receive buffer.
    pub peer_buf_alloc: u32,
}

/// The key of a connection: (host port, guest port).
pub open spec fn key_of(e: ConnEntry) -> (u32, u32) {
    (e.local_port, e.peer_port)
}

/// The state kept per connection: (forwarded count, guest buffer).
pub open spec fn state_of(e: ConnEntry) -> (u32, u32) {
    (e.fwd_cnt, e.peer_buf_alloc)
}

/// No two entries share a key.
pub open spec fn keys_unique(s: Seq<ConnEntry>) -> bool {
    forall|i: int, j: int|
        0 <= i < s.len() && 0 <= j < s.len() && i != j ==> #[trigger] key_of(s[i]) != #[trigger] key_of(s[j])
}

/// Whether some entry has key `k`.
pub open spec fn has_key(s: Seq<ConnEntry>, k: (u32, u32)) -> bool {
    exists|i: int| 0 <= i < s.len() && #[trigger] key_of(s[i]) == k
}

/// The entry with key `k` (meaningful when `has_key`).
pub open spec fn entry_for(s: Seq<ConnEntry>, k: (u32, u32)) -> ConnEntry {
    s[choose|i: int| 0 <= i < s.len() && #[trigger] key_of(s[i]) == k]
}

/// The connections as a map from key to state.
pub open spec fn conn_map(s: Seq<ConnEntry>) -> Map<(u32, u32), (u32, u32)> {
    Map::new(|k: (u32, u32)| has_key(s, k), |k: (u32, u32)| state_of(entry_for(s, k)))
}

proof fn lemma_entry_for(s: Seq<ConnEntry>, i: int)
    requires
        keys_unique(s),
        0 <= i < s.len(),
    ensures
        has_key(s, key_of(s[i])),
        entry_for(s, key_of(s[i])) == s[i],
        conn_map(s).contains_key(key_of(s[i])),
        conn_map(s)[key_of(s[i])] == state_of(s[i]),
{
    let k = key_of(s[i]);
    assert(key_of(s[i]) == k);
    let j = choose|j: int| 0 <= j < s.len() && #[trigger] key_of(s[j]) == k;
    if j != i {
        assert(key_of(s[j]) != key_of(s[i]));
    }
}

proof fn lemma_update_entry(s: Seq<ConnEntry>, i: int, e: ConnEntry)
    requires
        keys_unique(s),
        0 <= i < s.len(),
        key_of(e) == key_of(s[i]),
    ensures
        keys_unique(s.update(i, e)),
        conn_map(s.update(i, e)) == conn_map(s).insert(key_of(e), state_of(e)),
{
    let s2 = s.update(i, e);
    let k = key_of(e);
    assert forall|a: int, b: int| 0 <= a < s2.len() && 0 <= b < s2.len() && a != b implies
        #[trigger] key_of(s2[a]) != #[trigger] key_of(s2[b]) by {
        if a != i && b != i {
            assert(key_of(s[a]) != key_of(s[b]));
        } else if a == i {
            assert(key_of(s[i]) != key_of(s[b]));
        } else {
            assert(key_of(s[a]) != key_of(s[i]));
        }
    }
    assert forall|k2: (u32, u32)| has_key(s2, k2) <==> has_key(s, k2) || k2 == k by {
        if has_key(s, k2) {
            let j = choose|j: int| 0 <= j < s.len() && #[trigger] key_of(s[j]) == k2;
            assert(key_of(s2[j]) == k2);
        }
        if has_key(s2, k2) {
            let j = choose|j: int| 0 <= j < s2.len() && #[trigger] key_of(s2[j]) == k2;
            assert(key_of(s[j]) == k2);
        }
        if k2 == k {
            assert(key_of(s2[i]) == k2);
        }
    }
    assert forall|k2: (u32, u32)| has_key(s2, k2) implies
        #[trigger] state_of(entry_for(s2, k2)) == conn_map(s).insert(k, state_of(e))[k2] by {
        let j = choose|j: int| 0 <= j < s2.len() && #[trigger] key_of(s2[j]) == k2;
        lemma_entry_for(s2, j);
        if j != i {
            assert(s2[j] == s[j]);
            lemma_entry_for(s, j);
        }
    }
    assert(conn_map(s2) =~= conn_map(s).insert(k, state_of(e)));
}

proof fn lemma_push_entry(s: Seq<ConnEntry>, e: ConnEntry)
    requires
        keys_unique(s),
        !has_key(s, key_of(e)),
    ensures
        keys_unique(s.push(e)),
        conn_map(s.push(e)) == conn_map(s).insert(key_of(e), state_of(e)),
{
    let s2 = s.push(e);
    let n = s.len() as int;
    let k = key_of(e);
    assert forall|a: int, b: int| 0 <= a < s2.len() && 0 <= b < s2.len() && a != b implies
        #[trigger] key_of(s2[a]) != #[trigger] key_of(s2[b]) by {
        if a != n && b != n {
            assert(key_of(s[a]) != key_of(s[b]));
        } else if a == n {
            assert(key_of(s[b]) != k);
        } else {
            assert(key_of(s[a]) != k);
        }
    }
    assert forall|k2: (u32, u32)| has_key(s2, k2) <==> has_key(s, k2) || k2 == k by {
        if has_key(s, k2) {
            let j = choose|j: int| 0 <= j < s.len() && #[trigger] key_of(s[j]) == k2;
            assert(key_of(s2[j]) == k2);
        }
        if has_key(s2, k2) {
            let j = choose|j: int| 0 <= j < s2.len() && #[trigger] key_of(s2[j]) == k2;
            if j < n {
                assert(key_of(s[j]) == k2);
            }
        }
        if k2 == k {
            assert(key_of(s2[n]) == k2);
        }
    }
    assert forall|k2: (u32, u32)| has_key(s2, k2) implies
        #[trigger] state_of(entry_for(s2, k2)) == conn_map(s).insert(k, state_of(e))[k2] by {
        let j = choose|j: int| 0 <= j < s2.len() && #[trigger] key_of(s2[j]) == k2;
        lemma_entry_for(s2, j);
        if j != n {
            assert(s2[j] == s[j]);
            lemma_entry_for(s, j);
        }
    }
    assert(conn_map(s2) =~= conn_map(s).insert(k, state_of(e)));
}

proof fn lemma_remove_entry(s: Seq<ConnEntry>, i: int)
    requires
        keys_unique(s),
        0 <= i < s.len(),
    ensures
        keys_unique(s.remove(i)),
        conn_map(s.remove(i)) == conn_map(s).remove(key_of(s[i])),
{
    let s2 = s.remove(i);
    let k = key_of(s[i]);
    assert forall|a: int, b: int| 0 <= a < s2.len() && 0 <= b < s2.len() && a != b implies
        #[trigger] key_of(s2[a]) != #[trigger] key_of(s2[b]) by {
        let a0 = if a < i { a } else { a + 1 };
        let b0 = if b < i { b } else { b + 1 };
        assert(s2[a] == s[a0] && s2[b] == s[b0]);
        assert(key_of(s[a0]) != key_of(s[b0]));
    }
    assert forall|k2: (u32, u32)| has_key(s2, k2) <==> has_key(s, k2) && k2 != k by {
        if has_key(s, k2) && k2 != k {
            let j = choose|j: int| 0 <= j < s.len() && #[trigger] key_of(s[j]) == k2;
            if j < i {
                assert(key_of(s2[j]) == k2);
            } else {
                assert(j != i);
                assert(s2[j - 1] == s[j]);
                assert(key_of(s2[j - 1]) == k2);
            }
        }
        if has_key(s2, k2) {
            let j = choose|j: int| 0 <= j < s2.len() && #[trigger] key_of(s2[j]) == k2;
            let j0 = if j < i { j } else { j + 1 };
            assert(s2[j] == s[j0]);
            assert(key_of(s[j0]) == k2);
            assert(key_of(s[j0]) != key_of(s[i]));
        }
    }
    assert forall|k2: (u32, u32)| has_key(s2, k2) implies
        #[trigger] state_of(entry_for(s2, k2)) == conn_map(s).remove(k)[k2] by {
        let j = choose|j: int| 0 <= j < s2.len() && #[trigger] key_of(s2[j]) == k2;
        lemma_entry_for(s2, j);
        let j0 = if j < i { j } else { j + 1 };
        assert(s2[j] == s[j0]);
        lemma_entry_for(s, j0);
    }
    assert(conn_map(s2) =~= conn_map(s).remove(k));
}


/// A message from the device to the host-side bridge.
#[derive(Debug)]
pub enum DeviceToBridge {
    /// The guest asks to connect to a host port.
    Connect { local_port: u32 },
    /// Data from the guest for the host port.
    Data { local_port: u32, data: Vec<u8> },
    /// The guest closed its side.
    Shutdown { local_port: u32 },
}

/// A message from the host-side bridge to the device.
#[derive(Debug)]
pub enum BridgeToDevice {
    /// Data read from the host socket, for the guest.
    Data { local_port: u32, data: Vec<u8> },
    /// The host side closed.
    Closed { local_port: u32 },
}

/// A message to the bridge as plain values.
pub enum BridgeMsg {
    Connect(u32),
    Data(u32, Seq<u8>),
    Shutdown(u32),
}

impl View for DeviceToBridge {
    type V = BridgeMsg;

    open spec fn view(&self) -> BridgeMsg {
        match self {
            DeviceToBridge::Connect { local_port } => BridgeMsg::Connect(*local_port),
            DeviceToBridge::Data { local_port, data } => BridgeMsg::Data(*local_port, data@),
            DeviceToBridge::Shutdown { local_port } => BridgeMsg::Shutdown(*local_port),
        }
    }
}

/// The optional message as plain values.
pub open spec fn msg_view(m: Option<DeviceToBridge>) -> Option<BridgeMsg> {
    match m {
        Some(x) => Some(x@),
        None => None,
    }
}

/// A header from the host to the guest on the connection `local` (host) / `peer` (guest).
pub open spec fn reply_header(local: u32, peer: u32, op: u16, len: u32, buf_alloc: u32, fwd_cnt: u32) -> VsockHeader {
    VsockHeader {
        src_cid: VSOCK_HOST_CID,
        dst_cid: VSOCK_GUEST_CID,
        src_port: local,
        dst_port: peer,
        len,
        type_: VSOCK_TYPE_STREAM,
        op,
        flags: 0,
        buf_alloc,
        fwd_cnt,
    }
}

/// The device's protocol state: open connections and packets waiting for the guest.
#[verifier::ext_equal]
pub struct DeviceView {
    pub conns: Map<(u32, u32), (u32, u32)>,
    pub pending: Seq<Seq<u8>>,
}

/// The effect of the guest packet `p`: the new state and the message for the bridge.
/// Packets shorter than a header or not addressed to the host are dropped. A connection
/// request opens (or reopens) the connection and is answered; data on an open connection
/// goes to the bridge when the packet holds all of it; shutdown and reset close an open
/// connection (shutdown is answered with a reset); credit updates record the guest's buffer;
/// credit requests are answered with the forwarded count. Anything else is ignored.
pub open spec fn tx_step(v: DeviceView, p: Seq<u8>) -> (DeviceView, Option<BridgeMsg>) {
    if p.len() < VSOCK_HDR_SIZE {
        (v, None)
    } else {
        let h = VsockHeader::parse(p);
        let k = (h.dst_port, h.src_port);
        let open = v.conns.contains_key(k);
        let st = v.conns[k];
        if h.dst_cid != VSOCK_HOST_CID {
            (v, None)
        } else if h.op == VSOCK_OP_REQUEST {
            (DeviceView {
                conns: v.conns.insert(k, (0u32, h.buf_alloc)),
                pending: v.pending.push(reply_header(h.dst_port, h.src_port, VSOCK_OP_RESPONSE, 0, VSOCK_BUF_ALLOC, 0).spec_bytes()),
            }, Some(BridgeMsg::Connect(h.dst_port)))
        } else if h.op == VSOCK_OP_RW {
            if !open {
                (v, None)
            } else if p.len() >= VSOCK_HDR_SIZE + h.len {
                (DeviceView { conns: v.conns.insert(k, (st.0.wrapping_add(h.len), h.buf_alloc)), ..v },
                 Some(BridgeMsg::Data(h.dst_port, p.subrange(VSOCK_HDR_SIZE as int, VSOCK_HDR_SIZE + h.len))))
            } else {
                (DeviceView { conns: v.conns.insert(k, (st.0, h.buf_alloc)), ..v }, None)
            }
        } else if h.op == VSOCK_OP_SHUTDOWN {
            if open {
                (DeviceView {
                    conns: v.conns.remove(k),
                    pending: v.pending.push(reply_header(h.dst_port, h.src_port, VSOCK_OP_RST, 0, 0, 0).spec_bytes()),
                }, Some(BridgeMsg::Shutdown(h.dst_port)))
            } else {
                (v, None)
            }
        } else if h.op == VSOCK_OP_RST {
            if open {
                (DeviceView { conns: v.conns.remove(k), ..v }, Some(BridgeMsg::Shutdown(h.dst_port)))
            } else {
                (v, None)
            }
        } else if h.op == VSOCK_OP_CREDIT_UPDATE {
            if open {
                (DeviceView { conns: v.conns.insert(k, (st.0, h.buf_alloc)), ..v }, None)
            } else {
                (v, None)
            }
        } else if h.op == VSOCK_OP_CREDIT_REQUEST {
            if open {
                (DeviceView {
                    pending: v.pending.push(reply_header(h.dst_port, h.src_port, VSOCK_OP_CREDIT_UPDATE, 0, VSOCK_BUF_ALLOC, st.0).spec_bytes()),
                    ..v
                }, None)
            } else {
                (v, None)
            }
        } else {
            (v, None)
        }
    }
}

/// The effect of data `data` from the host socket of `local_port`: when a connection has
/// that host port, a data packet on it is queued for the guest (connections unchanged);
/// otherwise nothing changes.
pub open spec fn bridge_data_effect(before: DeviceView, after: DeviceView, local_port: u32, data: Seq<u8>) -> bool {
    &&& (forall|peer: u32| !before.conns.contains_key((local_port, peer))) ==> after == before
    &&& (exists|peer: u32| before.conns.contains_key((local_port, peer))) ==> exists|peer: u32| {
        &&& before.conns.contains_key((local_port, peer))
        &&& after.conns == before.conns
        &&& after.pending == before.pending.push(
            reply_header(local_port, peer, VSOCK_OP_RW, data.len() as u32, VSOCK_BUF_ALLOC,
                before.conns[(local_port, peer)].0).spec_bytes() + data)
    }
}

/// The effect of the host side of `local_port` closing: when a connection has that host
/// port, it is dropped and a reset is queued for the guest; otherwise nothing changes.
pub open spec fn bridge_closed_effect(before: DeviceView, after: DeviceView, local_port: u32) -> bool {
    &&& (forall|peer: u32| !before.conns.contains_key((local_port, peer))) ==> after == before
    &&& (exists|peer: u32| before.conns.contains_key((local_port, peer))) ==> exists|peer: u32| {
        &&& before.conns.contains_key((local_port, peer))
        &&& after.conns == before.conns.remove((local_port, peer))
        &&& after.pending == before.pending.push(reply_header(local_port, peer, VSOCK_OP_RST, 0, 0, 0).spec_bytes())
    }
}

/// The protocol side of the socket device.
pub struct VsockDevice {
    conns: Vec<ConnEntry>,
    rx: VecDeque<Vec<u8>>,
}

impl View for VsockDevice {
    type V = DeviceView;

    closed spec fn view(&self) -> DeviceView {
        DeviceView { conns: conn_map(self.conns@), pending: self.rx@.map_values(|b: Vec<u8>| b@) }
    }
}

impl VsockDevice {
    /// The table keeps one entry per connection.
    pub closed spec fn wf(&self) -> bool {
        keys_unique(self.conns@)
    }

    /// A device with no connections and nothing pending.
    pub fn new() -> (r: VsockDevice)
        ensures
            r.wf(),
            r@.conns == Map::<(u32, u32), (u32, u32)>::empty(),
            r@.pending == Seq::<Seq<u8>>::empty(),
    {
        let r = VsockDevice { conns: Vec::new(), rx: VecDeque::new() };
        assert(conn_map(r.conns@) =~= Map::<(u32, u32), (u32, u32)>::empty());
        assert(r.rx@.map_values(|b: Vec<u8>| b@) =~= Seq::<Seq<u8>>::empty());
        r
    }

    fn find_key(&self, local: u32, peer: u32) -> (r: Option<usize>)
        ensures
            match r {
                Some(i) => i < self.conns@.len() && key_of(self.conns@[i as int]) == (local, peer),
                None => !has_key(self.conns@, (local, peer)),
            },
    {
        let mut i: usize = 0;
        while i < self.conns.len()
            invariant
                i <= self.conns@.len(),
                forall|j: int| 0 <= j < i ==> #[trigger] key_of(self.conns@[j]) != (local, peer),
            decreases self.conns@.len() - i,
        {
            let e = self.conns[i];
            if e.local_port == local && e.peer_port == peer {
                return Some(i);
            }
            i = i + 1;
        }
        None
    }

    fn find_local(&self, local: u32) -> (r: Option<usize>)
        ensures
            match r {
                Some(i) => i < self.conns@.len() && self.conns@[i as int].local_port == local,
                None => forall|j: int| 0 <= j < self.conns@.len() ==> #[trigger] self.conns@[j].local_port != local,
            },
    {
        let mut i: usize = 0;
        while i < self.conns.len()
            invariant
                i <= self.conns@.len(),
                forall|j: int| 0 <= j < i ==> #[trigger] self.conns@[j].local_port != local,
            decreases self.conns@.len() - i,
        {
            if self.conns[i].local_port == local {
                return Some(i);
            }
            i = i + 1;
        }
        None
    }

    fn push_packet(&mut self, packet: Vec<u8>)
        ensures
            final(self).conns == old(self).conns,
            final(self)@.conns == old(self)@.conns,
            final(self)@.pending == old(self)@.pending.push(packet@),
    {
        let ghost old_rx = self.rx@;
        self.rx.push_back(packet);
        assert(self.rx@.map_values(|b: Vec<u8>| b@) =~= old_rx.map_values(|b: Vec<u8>| b@).push(packet@));
    }

    fn set_entry(&mut self, i: usize, e: ConnEntry)
        requires
            old(self).wf(),
            i < old(self).conns@.len(),
            key_of(e) == key_of(old(self).conns@[i as int]),
        ensures
            final(self).wf(),
            final(self)@.conns == old(self)@.conns.insert(key_of(e), state_of(e)),
            final(self)@.pending == old(self)@.pending,
    {
        proof { lemma_update_entry(self.conns@, i as int, e); }
        self.conns.set(i, e);
    }

    fn remove_entry(&mut self, i: usize)
        requires
            old(self).wf(),
            i < old(self).conns@.len(),
        ensures
            final(self).wf(),
            final(self)@.conns == old(self)@.conns.remove(key_of(old(self).conns@[i as int])),
            final(self)@.pending == old(self)@.pending,
    {
        proof { lemma_remove_entry(self.conns@, i as int); }
        self.conns.remove(i);
    }

    fn insert_entry(&mut self, e: ConnEntry)
        requires
            old(self).wf(),
        ensures
            final(self).wf(),
            final(self)@.conns == old(self)@.conns.insert(key_of(e), state_of(e)),
            final(self)@.pending == old(self)@.pending,
    {
        match self.find_key(e.local_port, e.peer_port) {
            Some(i) => self.set_entry(i, e),
            None => {
                proof { lemma_push_entry(self.conns@, e); }
                self.conns.push(e);
            },
        }
    }

    /// Handles one packet the guest sent on the transmit queue, and returns the message
    /// for the bridge, if any.
    pub fn handle_tx_packet(&mut self, packet: &[u8]) -> (msg: Option<DeviceToBridge>)
        requires
            old(self).wf(),
        ensures
            final(self).wf(),
            final(self)@ == tx_step(old(self)@, packet@).0,
            msg_view(msg) == tx_step(old(self)@, packet@).1,
    {
        let h = match VsockHeader::from_bytes(packet) {
            Some(h) => h,
            None => return None,
        };
        if h.dst_cid != VSOCK_HOST_CID {
            return None;
        }
        let local = h.dst_port;
        let peer = h.src_port;
        let ghost k = (local, peer);
        if h.op == VSOCK_OP_REQUEST {
            self.insert_entry(ConnEntry { local_port: local, peer_port: peer, fwd_cnt: 0, peer_buf_alloc: h.buf_alloc });
            let resp = VsockHeader {
                src_cid: VSOCK_HOST_CID,
                dst_cid: VSOCK_GUEST_CID,
                src_port: local,
                dst_port: peer,
                len: 0,
                type_: VSOCK_TYPE_STREAM,
                op: VSOCK_OP_RESPONSE,
                flags: 0,
                buf_alloc: VSOCK_BUF_ALLOC,
                fwd_cnt: 0,
            };
            self.push_packet(resp.to_bytes());
            return Some(DeviceToBridge::Connect { local_port: local });
        }
        let i = match self.find_key(local, peer) {
            Some(i) => i,
            None => {
                proof {
                    assert(!conn_map(self.conns@).contains_key(k));
                }
                return None;
            },
        };
        let st = self.conns[i];
        proof {
            lemma_entry_for(self.conns@, i as int);
        }
        if h.op == VSOCK_OP_RW {
            let data_len = h.len as usize;
            if packet.len() - VSOCK_HDR_SIZE >= data_len {
                let data = copy_range(packet, VSOCK_HDR_SIZE, data_len);
                self.set_entry(i, ConnEntry { fwd_cnt: st.fwd_cnt.wrapping_add(h.len), peer_buf_alloc: h.buf_alloc, ..st });
                Some(DeviceToBridge::Data { local_port: local, data })
            } else {
                self.set_entry(i, ConnEntry { peer_buf_alloc: h.buf_alloc, ..st });
                None
            }
        } else if h.op == VSOCK_OP_SHUTDOWN {
            self.remove_entry(i);
            let rst = VsockHeader {
                src_cid: VSOCK_HOST_CID,
                dst_cid: VSOCK_GUEST_CID,
                src_port: local,
                dst_port: peer,
                len: 0,
                type_: VSOCK_TYPE_STREAM,
                op: VSOCK_OP_RST,
                flags: 0,
                buf_alloc: 0,
                fwd_cnt: 0,
            };
            self.push_packet(rst.to_bytes());
            Some(DeviceToBridge::Shutdown { local_port: local })
        } else if h.op == VSOCK_OP_RST {
            self.remove_entry(i);
            Some(DeviceToBridge::Shutdown { local_port: local })
        } else if h.op == VSOCK_OP_CREDIT_UPDATE {
            self.set_entry(i, ConnEntry { peer_buf_alloc: h.buf_alloc, ..st });
            None
        } else if h.op == VSOCK_OP_CREDIT_REQUEST {
            let update = VsockHeader {
                src_cid: VSOCK_HOST_CID,
                dst_cid: VSOCK_GUEST_CID,
                src_port: local,
                dst_port: peer,
                len: 0,
                type_: VSOCK_TYPE_STREAM,
                op: VSOCK_OP_CREDIT_UPDATE,
                flags: 0,
                buf_alloc: VSOCK_BUF_ALLOC,
                fwd_cnt: st.fwd_cnt,
            };
            self.push_packet(update.to_bytes());
            None
        } else {
            None
        }
    }

    /// Data from the host socket of `local_port`: queued for the guest as a data packet on
    /// a connection with that host port, if there is one (dropped otherwise).
    pub fn handle_bridge_data(&mut self, local_port: u32, data: Vec<u8>)
        requires
            old(self).wf(),
        ensures
            final(self).wf(),
            bridge_data_effect(old(self)@, final(self)@, local_port, data@),
    {
        match self.find_local(local_port) {
            Some(i) => {
                let e = self.conns[i];
                proof { lemma_entry_for(self.conns@, i as int); }
                let hdr = VsockHeader {
                    src_cid: VSOCK_HOST_CID,
                    dst_cid: VSOCK_GUEST_CID,
                    src_port: e.local_port,
                    dst_port: e.peer_port,
                    len: data.len() as u32,
                    type_: VSOCK_TYPE_STREAM,
                    op: VSOCK_OP_RW,
                    flags: 0,
                    buf_alloc: VSOCK_BUF_ALLOC,
                    fwd_cnt: e.fwd_cnt,
                };
                let mut packet = hdr.to_bytes();
                put_bytes(&mut packet, data.as_slice());
                self.push_packet(packet);
            },
            None => {
                proof {
                    assert forall|peer: u32| !old(self)@.conns.contains_key((local_port, peer)) by {
                        if has_key(self.conns@, (local_port, peer)) {
                            let j = choose|j: int| 0 <= j < self.conns@.len() && #[trigger] key_of(self.conns@[j]) == (local_port, peer);
                            assert(self.conns@[j].local_port == local_port);
                        }
                    }
                }
            },
        }
    }

    /// The host side of `local_port` closed: a connection with that host port, if there is
    /// one, is dropped and the guest is sent a reset.
    pub fn handle_bridge_closed(&mut self, local_port: u32)
        requires
            old(self).wf(),
        ensures
            final(self).wf(),
            bridge_closed_effect(old(self)@, final(self)@, local_port),
    {
        match self.find_local(local_port) {
            Some(i) => {
                let e = self.conns[i];
                proof { lemma_entry_for(self.conns@, i as int); }
                self.remove_entry(i);
                let hdr = VsockHeader {
                    src_cid: VSOCK_HOST_CID,
                    dst_cid: VSOCK_GUEST_CID,
                    src_port: e.local_port,
                    dst_port: e.peer_port,
                    len: 0,
                    type_: VSOCK_TYPE_STREAM,
                    op: VSOCK_OP_RST,
                    flags: 0,
                    buf_alloc: 0,
                    fwd_cnt: 0,
                };
                self.push_packet(hdr.to_bytes());
            },
            None => {
                proof {
                    assert forall|peer: u32| !old(self)@.conns.contains_key((local_port, peer)) by {
                        if has_key(self.conns@, (local_port, peer)) {
                            let j = choose|j: int| 0 <= j < self.conns@.len() && #[trigger] key_of(self.conns@[j]) == (local_port, peer);
                            assert(self.conns@[j].local_port == local_port);
                        }
                    }
                }
            },
        }
    }

    /// Handles one message from the bridge.
    pub fn handle_bridge_message(&mut self, msg: BridgeToDevice)
        requires
            old(self).wf(),
        ensures
            final(self).wf(),
            match msg {
                BridgeToDevice::Data { local_port, data } => bridge_data_effect(old(self)@, final(self)@, local_port, data@),
                BridgeToDevice::Closed { local_port } => bridge_closed_effect(old(self)@, final(self)@, local_port),
            },
    {
        match msg {
            BridgeToDevice::Data { local_port, data } => self.handle_bridge_data(local_port, data),
            BridgeToDevice::Closed { local_port } => self.handle_bridge_closed(local_port),
        }
    }

    /// Whether packets wait for the guest.
    pub fn has_pending(&self) -> (r: bool)
        ensures
            r == (self@.pending.len() > 0),
    {
        self.rx.len() > 0
    }

    /// Takes the oldest packet waiting for the guest.
    pub fn pop_rx_packet(&mut self) -> (r: Option<Vec<u8>>)
        requires
            old(self).wf(),
        ensures
            final(self).wf(),
            final(self)@.conns == old(self)@.conns,
            old(self)@.pending.len() == 0 ==> r is None && final(self)@.pending == old(self)@.pending,
            old(self)@.pending.len() > 0 ==> r is Some && r->0@ == old(self)@.pending[0]
                && final(self)@.pending == old(self)@.pending.drop_first(),
    {
        let ghost old_rx = self.rx@;
        let r = self.rx.pop_front();
        proof {
            if old_rx.len() > 0 {
                assert(self.rx@ == old_rx.drop_first());
                assert(self.rx@.map_values(|b: Vec<u8>| b@) =~= old_rx.map_values(|b: Vec<u8>| b@).drop_first());
            }
        }
        r
    }

    /// Forgets every connection and every pending packet (device reset).
    pub fn reset(&mut self)
        ensures
            final(self).wf(),
            final(self)@.conns == Map::<(u32, u32), (u32, u32)>::empty(),
            final(self)@.pending == Seq::<Seq<u8>>::empty(),
    {
        self.conns.clear();
        self.rx.clear();
        assert(conn_map(self.conns@) =~= Map::<(u32, u32), (u32, u32)>::empty());
        assert(self.rx@.map_values(|b: Vec<u8>| b@) =~= Seq::<Seq<u8>>::empty());
    }
}


/// A header followed by any payload parses as that header.
pub proof fn lemma_parse_with_payload(h: VsockHeader, payload: Seq<u8>)
    ensures
        VsockHeader::parse(h.spec_bytes() + payload) == h,
        (h.spec_bytes() + payload).len() == VSOCK_HDR_SIZE + payload.len(),
        (h.spec_bytes() + payload).subrange(VSOCK_HDR_SIZE as int, VSOCK_HDR_SIZE + payload.len()) == payload,
{
    law_header_roundtrip(h);
    let b = h.spec_bytes();
    let p = b + payload;
    assert(p.subrange(0, 8) =~= b.subrange(0, 8));
    assert(p.subrange(8, 16) =~= b.subrange(8, 16));
    assert(p.subrange(16, 20) =~= b.subrange(16, 20));
    assert(p.subrange(20, 24) =~= b.subrange(20, 24));
    assert(p.subrange(24, 28) =~= b.subrange(24, 28));
    assert(p.subrange(28, 30) =~= b.subrange(28, 30));
    assert(p.subrange(30, 32) =~= b.subrange(30, 32));
    assert(p.subrange(32, 36) =~= b.subrange(32, 36));
    assert(p.subrange(36, 40) =~= b.subrange(36, 40));
    assert(p.subrange(40, 44) =~= b.subrange(40, 44));
    assert(p.subrange(VSOCK_HDR_SIZE as int, VSOCK_HDR_SIZE + payload.len()) =~= payload);
}

/// A packet not addressed to the host changes nothing and sends nothing to the bridge.
pub proof fn law_foreign_packets_ignored(v: DeviceView, p: Seq<u8>)
    requires
        p.len() >= VSOCK_HDR_SIZE ==> VsockHeader::parse(p).dst_cid != VSOCK_HOST_CID,
    ensures
        tx_step(v, p) == (v, None::<BridgeMsg>),
{
}

/// After the guest connects from port `g` to host port `l`, a data packet on that
/// connection carrying its whole payload reaches the bridge unchanged, and the connection
/// records the payload's length as forwarded.
pub proof fn law_connect_then_data(v: DeviceView, req: VsockHeader, rw: VsockHeader, payload: Seq<u8>)
    requires
        req.dst_cid == VSOCK_HOST_CID,
        req.op == VSOCK_OP_REQUEST,
        rw.dst_cid == VSOCK_HOST_CID,
        rw.op == VSOCK_OP_RW,
        rw.src_port == req.src_port,
        rw.dst_port == req.dst_port,
        rw.len == payload.len(),
    ensures
        ({
            let (v1, m1) = tx_step(v, req.spec_bytes());
            let (v2, m2) = tx_step(v1, rw.spec_bytes() + payload);
            &&& m1 == Some(BridgeMsg::Connect(req.dst_port))
            &&& v1.conns.contains_key((req.dst_port, req.src_port))
            &&& m2 == Some(BridgeMsg::Data(req.dst_port, payload))
            &&& v2.conns[(req.dst_port, req.src_port)] == (rw.len, rw.buf_alloc)
        }),
{
    law_header_roundtrip(req);
    lemma_parse_with_payload(rw, payload);
    let v1 = tx_step(v, req.spec_bytes()).0;
    let st = v1.conns[(req.dst_port, req.src_port)];
    assert(st.0 == 0u32);
    let n = rw.len;
    assert(0u32.wrapping_add(n) == n) by (bit_vector);
}

/// After the guest shuts an open connection down, the bridge is told, the guest is sent a
/// reset, and later data on that connection is dropped.
pub proof fn law_shutdown_then_data_dropped(v: DeviceView, sd: VsockHeader, rw: VsockHeader, payload: Seq<u8>)
    requires
        sd.dst_cid == VSOCK_HOST_CID,
        sd.op == VSOCK_OP_SHUTDOWN,
        v.conns.contains_key((sd.dst_port, sd.src_port)),
        rw.dst_cid == VSOCK_HOST_CID,
        rw.op == VSOCK_OP_RW,
        rw.src_port == sd.src_port,
        rw.dst_port == sd.dst_port,
    ensures
        ({
            let (v1, m1) = tx_step(v, sd.spec_bytes());
            &&& m1 == Some(BridgeMsg::Shutdown(sd.dst_port))
            &&& !v1.conns.contains_key((sd.dst_port, sd.src_port))
            &&& v1.pending == v.pending.push(reply_header(sd.dst_port, sd.src_port, VSOCK_OP_RST, 0, 0, 0).spec_bytes())
            &&& tx_step(v1, rw.spec_bytes() + payload) == (v1, None::<BridgeMsg>)
        }),
{
    law_header_roundtrip(sd);
    lemma_parse_with_payload(rw, payload);
}


/// After the guest resets an open connection, the bridge is told to shut that host port
/// down, the connection is closed without a reply to the guest, and later data on that
/// connection is dropped.
pub proof fn law_reset_then_data_dropped(v: DeviceView, rst: VsockHeader, rw: VsockHeader, payload: Seq<u8>)
    requires
        rst.dst_cid == VSOCK_HOST_CID,
        rst.op == VSOCK_OP_RST,
        v.conns.contains_key((rst.dst_port, rst.src_port)),
        rw.dst_cid == VSOCK_HOST_CID,
        rw.op == VSOCK_OP_RW,
        rw.src_port == rst.src_port,
        rw.dst_port == rst.dst_port,
    ensures
        ({
            let (v1, m1) = tx_step(v, rst.spec_bytes());
            &&& m1 == Some(BridgeMsg::Shutdown(rst.dst_port))
            &&& !v1.conns.contains_key((rst.dst_port, rst.src_port))
            &&& forall|k: (u32, u32)| k != (rst.dst_port, rst.src_port) ==> v1.conns.contains_key(k)
                == v.conns.contains_key(k)
            &&& v1.pending == v.pending
            &&& tx_step(v1, rw.spec_bytes() + payload) == (v1, None::<BridgeMsg>)
        }),
{
    law_header_roundtrip(rst);
    lemma_parse_with_payload(rw, payload);
}

/// A connection request followed by a reset on the same ports leaves that connection
/// closed, and the reset tells the bridge to shut the host port down.
pub proof fn law_connect_then_reset(v: DeviceView, req: VsockHeader, rst: VsockHeader)
    requires
        req.dst_cid == VSOCK_HOST_CID,
        req.op == VSOCK_OP_REQUEST,
        rst.dst_cid == VSOCK_HOST_CID,
        rst.op == VSOCK_OP_RST,
        rst.src_port == req.src_port,
        rst.dst_port == req.dst_port,
    ensures
        ({
            let (v1, m1) = tx_step(v, req.spec_bytes());
            let (v2, m2) = tx_step(v1, rst.spec_bytes());
            &&& m2 == Some(BridgeMsg::Shutdown(req.dst_port))
            &&& !v2.conns.contains_key((req.dst_port, req.src_port))
        }),
{
    law_header_roundtrip(req);
    law_header_roundtrip(rst);
}

/// The socket path of each port of the given direction; a later mapping of a port
/// replaces an earlier one.
pub open spec fn port_paths(cfgs: Seq<VsockPortConfig>, connect: bool) -> Map<u32, Seq<char>>
    decreases cfgs.len(),
{
    if cfgs.len() == 0 {
        Map::empty()
    } else {
        let rest = port_paths(cfgs.drop_last(), connect);
        let c = cfgs.last();
        if c.spec_connect() == connect {
            rest.insert(c.spec_port(), c.spec_socket_path())
        } else {
            rest
        }
    }
}

/// The socket path of each port in `m`, as text.
pub open spec fn path_texts(m: Map<u32, String>) -> Map<u32, Seq<char>> {
    m.map_values(|s: String| s@)
}

/// The host side of the socket device: which host socket serves each port.
pub struct VsockBridge {
    listen_ports: HashMap<u32, String>,
    connect_ports: HashMap<u32, String>,
}

impl VsockBridge {
    /// Socket paths of the ports of one direction (`connect`: the host connects).
    pub closed spec fn paths(&self, connect: bool) -> Map<u32, Seq<char>> {
        if connect { path_texts(self.connect_ports@) } else { path_texts(self.listen_ports@) }
    }

    /// Socket paths of the ports the guest connects to (the host listens).
    pub closed spec fn listen_ports(&self) -> Map<u32, Seq<char>> {
        path_texts(self.listen_ports@)
    }

    /// Socket paths of the ports the host connects to.
    pub closed spec fn connect_ports(&self) -> Map<u32, Seq<char>> {
        path_texts(self.connect_ports@)
    }

    /// A bridge for the given port mappings; a later mapping of a port replaces an earlier one.
    pub fn new(port_configs: Vec<VsockPortConfig>) -> (r: VsockBridge)
        ensures
            r.listen_ports() == port_paths(port_configs@, false),
            r.connect_ports() == port_paths(port_configs@, true),
    {
        let mut listen_ports: HashMap<u32, String> = HashMap::new();
        let mut connect_ports: HashMap<u32, String> = HashMap::new();
        let ghost s = port_configs@;
        let mut i: usize = 0;
        proof {
            assert(path_texts(listen_ports@) =~= port_paths(s.subrange(0, 0), false));
            assert(path_texts(connect_ports@) =~= port_paths(s.subrange(0, 0), true));
        }
        while i < port_configs.len()
            invariant
                i <= s.len(),
                s == port_configs@,
                path_texts(listen_ports@) == port_paths(s.subrange(0, i as int), false),
                path_texts(connect_ports@) == port_paths(s.subrange(0, i as int), true),
            decreases s.len() - i,
        {
            let c = &port_configs[i];
            let ghost pre = s.subrange(0, i + 1);
            proof {
                assert(pre.drop_last() =~= s.subrange(0, i as int));
                assert(pre.last() == s[i as int]);
            }
            if c.is_connect() {
                connect_ports.insert(c.port(), owned(c.socket_path()));
                proof {
                    assert(path_texts(connect_ports@) =~= port_paths(pre, true));
                }
            } else {
                listen_ports.insert(c.port(), owned(c.socket_path()));
                proof {
                    assert(path_texts(listen_ports@) =~= port_paths(pre, false));
                }
            }
            i = i + 1;
        }
        proof {
            assert(s.subrange(0, s.len() as int) =~= s);
        }
        VsockBridge { listen_ports, connect_ports }
    }

    /// The socket path serving `port` in the given direction.
    pub fn path_for(&self, port: u32, connect: bool) -> (r: Option<String>)
        ensures
            match r {
                Some(p) => self.paths(connect).contains_key(port)
                    && p@ == self.paths(connect)[port],
                None => !self.paths(connect).contains_key(port),
            },
    {
        let m = if connect { &self.connect_ports } else { &self.listen_ports };
        match m.get(&port) {
            Some(p) => Some(owned(p.as_str())),
            None => None,
        }
    }

    /// Every port of the given direction with its socket path, each port once.
    pub fn port_entries(&self, connect: bool) -> (r: Vec<(u32, String)>)
        ensures
            forall|i: int, j: int| 0 <= i < r@.len() && 0 <= j < r@.len() && i != j ==> #[trigger] r@[i].0 != #[trigger] r@[j].0,
            forall|i: int| 0 <= i < r@.len() ==> self.paths(connect).contains_key(#[trigger] r@[i].0)
                && self.paths(connect)[r@[i].0] == r@[i].1@,
            forall|p: u32| self.paths(connect).contains_key(p) ==> exists|i: int| 0 <= i < r@.len() && #[trigger] r@[i].0 == p,
    {
        let m = if connect { &self.connect_ports } else { &self.listen_ports };
        let mut r: Vec<(u32, String)> = Vec::new();
        for kv in it: m.iter()
            invariant
                r@.len() == it.index(),
                it.seq() == spec_hash_map_iter(m).remaining(),
                forall|j: int| 0 <= j < r@.len() ==> (#[trigger] r@[j]).0 == *it.seq()[j].0
                    && r@[j].1@ == (*it.seq()[j].1)@,
        {
            let (k, v) = kv;
            r.push((*k, owned(v.as_str())));
        }
        proof {
            let v = spec_hash_map_iter(m).remaining();
            assert(v.no_duplicates());
            assert forall|i: int, j: int| 0 <= i < r@.len() && 0 <= j < r@.len() && i != j implies #[trigger] r@[i].0 != #[trigger] r@[j].0 by {
                if r@[i].0 == r@[j].0 {
                    assert(m@.contains_key(*v[i].0) && m@[*v[i].0] == *v[i].1);
                    assert(m@.contains_key(*v[j].0) && m@[*v[j].0] == *v[j].1);
                    assert(v[i] == v[j]);
                }
            }
            assert forall|i: int| 0 <= i < r@.len() implies self.paths(connect).contains_key(#[trigger] r@[i].0)
                && self.paths(connect)[r@[i].0] == r@[i].1@ by {
                assert(m@.contains_key(*v[i].0) && m@[*v[i].0] == *v[i].1);
            }
            assert forall|p: u32| self.paths(connect).contains_key(p) implies exists|i: int| 0 <= i < r@.len() && #[trigger] r@[i].0 == p by {
                assert(m@.contains_key(p));
                assert(v.contains((&p, &m@[p])));
                let i = choose|i: int| 0 <= i < v.len() && v[i] == (&p, &m@[p]);
                assert(r@[i].0 == p);
            }
        }
        r
    }
}

} // verus!
