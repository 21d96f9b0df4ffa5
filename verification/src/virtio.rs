//! The virtio MMIO transport: the register file a guest driver programs to discover a
//! device, negotiate features and place its virtqueues, shared by the file-system,
//! network, console and socket devices.
use vstd::prelude::*;
use crate::wire::{bytes32, le16, le32, le64, read_u16, read_u32, read_u64, lemma_le_roundtrip};
use vstd::bytes::u32_to_le_bytes;
use vstd::string::StringSliceAdditionalSpecFns;

verus! {

/// Default queue size for virtio devices.
pub const DEFAULT_QUEUE_SIZE: u16 = 256;

pub const VIRTIO_MMIO_MAGIC: u64 = 0x00;
pub const VIRTIO_MMIO_VERSION: u64 = 0x04;
pub const VIRTIO_MMIO_DEVICE_ID: u64 = 0x08;
pub const VIRTIO_MMIO_VENDOR_ID: u64 = 0x0c;
pub const VIRTIO_MMIO_DEVICE_FEATURES: u64 = 0x10;
pub const VIRTIO_MMIO_DEVICE_FEATURES_SEL: u64 = 0x14;
pub const VIRTIO_MMIO_DRIVER_FEATURES: u64 = 0x20;
pub const VIRTIO_MMIO_DRIVER_FEATURES_SEL: u64 = 0x24;
pub const VIRTIO_MMIO_QUEUE_SEL: u64 = 0x30;
pub const VIRTIO_MMIO_QUEUE_NUM_MAX: u64 = 0x34;
pub const VIRTIO_MMIO_QUEUE_NUM: u64 = 0x38;
pub const VIRTIO_MMIO_QUEUE_READY: u64 = 0x44;
pub const VIRTIO_MMIO_QUEUE_NOTIFY: u64 = 0x50;
pub const VIRTIO_MMIO_INTERRUPT_STATUS: u64 = 0x60;
pub const VIRTIO_MMIO_INTERRUPT_ACK: u64 = 0x64;
pub const VIRTIO_MMIO_STATUS: u64 = 0x70;
pub const VIRTIO_MMIO_QUEUE_DESC_LOW: u64 = 0x80;
pub const VIRTIO_MMIO_QUEUE_DESC_HIGH: u64 = 0x84;
pub const VIRTIO_MMIO_QUEUE_AVAIL_LOW: u64 = 0x90;
pub const VIRTIO_MMIO_QUEUE_AVAIL_HIGH: u64 = 0x94;
pub const VIRTIO_MMIO_QUEUE_USED_LOW: u64 = 0xa0;
pub const VIRTIO_MMIO_QUEUE_USED_HIGH: u64 = 0xa4;
pub const VIRTIO_MMIO_CONFIG: u64 = 0x100;

/// Magic value for virtio MMIO devices ("virt" in little-endian).
pub const VIRTIO_MMIO_MAGIC_VALUE: u32 = 0x74726976;
/// Vendor id reported by every device ("QEMU" in little-endian).
pub const VIRTIO_VENDOR_ID: u32 = 0x554d4551;
/// The device-status bit a driver sets once it is ready to drive the device.
pub const VIRTIO_STATUS_DRIVER_OK: u32 = 4;
/// Interrupt-status bit: a used ring was updated.
pub const VIRTIO_INT_USED_RING: u32 = 1;
/// Feature bit: the device follows virtio 1.0.
pub const VIRTIO_F_VERSION_1: u64 = 0x1_0000_0000;
/// Feature bit: the network device reports a MAC address.
pub const VIRTIO_NET_F_MAC: u64 = 0x20;

pub const VIRTIO_ID_NET: u32 = 1;
pub const VIRTIO_ID_CONSOLE: u32 = 3;
pub const VIRTIO_ID_VSOCK: u32 = 19;
pub const VIRTIO_ID_FS: u32 = 26;

/// Size of the file-system device's tag in its configuration space.
pub const FS_TAG_SIZE: u64 = 36;
/// Size of the file-system device's configuration space (tag and queue count).
pub const FS_CONFIG_SIZE: u64 = 40;

/// Longest descriptor the devices will copy, so that a guest cannot make the host
/// allocate without bound (64 KiB).
pub const MAX_DESCRIPTOR_LEN: u32 = 65536;

/// Most socket connections one guest may hold open at once.
pub const MAX_VSOCK_CONNECTIONS: usize = 1024;

/// The state of one virtqueue as the driver has programmed it.
#[derive(Clone, Copy, Debug, PartialEq, Eq, Structural)]
pub struct VirtioQueueState {
    pub ready: bool,
    pub size: u16,
    pub desc_table: u64,
    pub avail_ring: u64,
    pub used_ring: u64,
    pub next_avail: u16,
    pub next_used: u16,
}

/// A queue of `size` entries, not ready, with no rings placed and no entries used.
pub open spec fn fresh_queue(size: u16) -> VirtioQueueState {
    VirtioQueueState {
        ready: false,
        size,
        desc_table: 0,
        avail_ring: 0,
        used_ring: 0,
        next_avail: 0,
        next_used: 0,
    }
}

impl VirtioQueueState {
    pub fn new(size: u16) -> (r: VirtioQueueState)
        ensures
            r == fresh_queue(size),
    {
        VirtioQueueState {
            ready: false,
            size,
            desc_table: 0,
            avail_ring: 0,
            used_ring: 0,
            next_avail: 0,
            next_used: 0,
        }
    }
}

impl Default for VirtioQueueState {
    fn default() -> (r: VirtioQueueState)
        ensures
            r == fresh_queue(DEFAULT_QUEUE_SIZE),
    {
        VirtioQueueState::new(DEFAULT_QUEUE_SIZE)
    }
}

/// The low 32 bits of `x`.
pub open spec fn low32(x: u64) -> u32 {
    (x & 0xffff_ffff) as u32
}

/// The high 32 bits of `x`.
pub open spec fn high32(x: u64) -> u32 {
    (x >> 32) as u32
}

/// `x` with its low 32 bits replaced by `v`.
pub open spec fn with_low32(x: u64, v: u32) -> u64 {
    (x & 0xffff_ffff_0000_0000) | (v as u64)
}

/// `x` with its high 32 bits replaced by `v`.
pub open spec fn with_high32(x: u64, v: u32) -> u64 {
    (x & 0x0000_0000_ffff_ffff) | ((v as u64) << 32)
}

/// Writing one half of a 64-bit register sets that half and keeps the other.
pub proof fn lemma_halves(x: u64, v: u32)
    ensures
        low32(with_low32(x, v)) == v,
        high32(with_low32(x, v)) == high32(x),
        high32(with_high32(x, v)) == v,
        low32(with_high32(x, v)) == low32(x),
{
    assert(((((x & 0xffff_ffff_0000_0000) | (v as u64)) & 0xffff_ffff) as u32) == v) by (bit_vector);
    assert(((((x & 0xffff_ffff_0000_0000) | (v as u64)) >> 32) as u32) == ((x >> 32) as u32))
        by (bit_vector);
    assert(((((x & 0x0000_0000_ffff_ffff) | ((v as u64) << 32)) >> 32) as u32) == v) by (bit_vector);
    assert(((((x & 0x0000_0000_ffff_ffff) | ((v as u64) << 32)) & 0xffff_ffff) as u32)
        == ((x & 0xffff_ffff) as u32)) by (bit_vector);
}

/// A 64-bit register written low half then high half holds exactly the two halves,
/// whatever it held before.
pub proof fn law_register_from_halves(x: u64, lo: u32, hi: u32)
    ensures
        with_high32(with_low32(x, lo), hi) == ((hi as u64) << 32) | (lo as u64),
        low32(with_high32(with_low32(x, lo), hi)) == lo,
        high32(with_high32(with_low32(x, lo), hi)) == hi,
{
    assert(((((x & 0xffff_ffff_0000_0000) | (lo as u64)) & 0x0000_0000_ffff_ffff) | ((hi as u64)
        << 32)) == ((hi as u64) << 32) | (lo as u64)) by (bit_vector);
    lemma_halves(x, lo);
    lemma_halves(with_low32(x, lo), hi);
}


/// Which device sits behind a transport; it fixes the device id, the number of queues
/// and the layout of the configuration space.
#[derive(Clone, Copy, Debug, PartialEq, Eq, Structural)]
pub enum DeviceKind {
    Fs,
    Net,
    Console,
    Vsock,
}

/// Number of virtqueues of each device (the socket device also has an event queue).
pub open spec fn queue_count(kind: DeviceKind) -> nat {
    match kind {
        DeviceKind::Vsock => 3,
        _ => 2,
    }
}

/// The virtio device id reported at `VIRTIO_MMIO_DEVICE_ID`.
pub open spec fn device_id(kind: DeviceKind) -> u32 {
    match kind {
        DeviceKind::Fs => VIRTIO_ID_FS,
        DeviceKind::Net => VIRTIO_ID_NET,
        DeviceKind::Console => VIRTIO_ID_CONSOLE,
        DeviceKind::Vsock => VIRTIO_ID_VSOCK,
    }
}

/// What the device must do after a register write, besides the register change itself.
#[derive(Clone, Copy, Debug, PartialEq, Eq, Structural)]
pub enum MmioEffect {
    /// Nothing more.
    Nothing,
    /// The driver notified this queue: process its available entries.
    ProcessQueue(u32),
    /// The driver reset the device: drop any per-device state (sessions, pending data).
    Reset,
}

/// The register file of a virtio MMIO device.
pub struct MmioTransport {
    pub kind: DeviceKind,
    pub device_features: u64,
    pub driver_features: u64,
    pub device_features_sel: u32,
    pub driver_features_sel: u32,
    pub device_status: u32,
    pub queue_sel: u32,
    pub queues: Vec<VirtioQueueState>,
    pub interrupt_status: u32,
    /// Whether guest memory has been attached, so that queue addresses can be checked.
    pub memory_attached: bool,
    /// File-system tag (file-system device only).
    pub tag: Vec<u8>,
    /// MAC address (network device only).
    pub mac: [u8; 6],
    /// Guest context id (socket device only).
    pub guest_cid: u64,
}

/// The transport as plain values.
#[verifier::ext_equal]
pub struct TransportView {
    pub kind: DeviceKind,
    pub device_features: u64,
    pub driver_features: u64,
    pub device_features_sel: u32,
    pub driver_features_sel: u32,
    pub device_status: u32,
    pub queue_sel: u32,
    pub queues: Seq<VirtioQueueState>,
    pub interrupt_status: u32,
    pub memory_attached: bool,
    pub tag: Seq<u8>,
    pub mac: Seq<u8>,
    pub guest_cid: u64,
}

impl View for MmioTransport {
    type V = TransportView;

    open spec fn view(&self) -> TransportView {
        TransportView {
            kind: self.kind,
            device_features: self.device_features,
            driver_features: self.driver_features,
            device_features_sel: self.device_features_sel,
            driver_features_sel: self.driver_features_sel,
            device_status: self.device_status,
            queue_sel: self.queue_sel,
            queues: self.queues@,
            interrupt_status: self.interrupt_status,
            memory_attached: self.memory_attached,
            tag: self.tag@,
            mac: self.mac@,
            guest_cid: self.guest_cid,
        }
    }
}

/// The shape every transport keeps: one queue state per virtqueue, and, except on the
/// file-system device (which checks the selector at each use), a selector that names one.
pub open spec fn transport_wf(v: TransportView) -> bool {
    &&& v.queues.len() == queue_count(v.kind)
    &&& v.kind != DeviceKind::Fs ==> v.queue_sel < v.queues.len()
    &&& v.mac.len() == 6
}

/// `n` fresh queues of the default size.
pub open spec fn fresh_queues(n: nat) -> Seq<VirtioQueueState> {
    Seq::new(n, |i: int| fresh_queue(DEFAULT_QUEUE_SIZE))
}

/// The state of a transport just created for `kind` with the given features and
/// configuration values.
pub open spec fn initial_view(kind: DeviceKind, features: u64, tag: Seq<u8>, mac: Seq<u8>, guest_cid: u64) -> TransportView {
    TransportView {
        kind,
        device_features: features,
        driver_features: 0,
        device_features_sel: 0,
        driver_features_sel: 0,
        device_status: 0,
        queue_sel: 0,
        queues: fresh_queues(queue_count(kind)),
        interrupt_status: 0,
        memory_attached: false,
        tag,
        mac,
        guest_cid,
    }
}

/// Whether the queue selector names a queue.
pub open spec fn selected_in_range(v: TransportView) -> bool {
    v.queue_sel < v.queues.len()
}

/// The selected queue (meaningful when `selected_in_range`).
pub open spec fn selected_queue(v: TransportView) -> VirtioQueueState {
    v.queues[v.queue_sel as int]
}

/// `v` with the selected queue replaced by `q`; unchanged when no queue is selected.
pub open spec fn with_selected_queue(v: TransportView, q: VirtioQueueState) -> TransportView {
    if selected_in_range(v) {
        TransportView { queues: v.queues.update(v.queue_sel as int, q), ..v }
    } else {
        v
    }
}

/// Whether the driver has set DRIVER_OK.
pub open spec fn driver_ok(v: TransportView) -> bool {
    v.device_status & VIRTIO_STATUS_DRIVER_OK != 0
}

/// The readiness of the selected queue after the driver writes `val` to QUEUE_READY.
/// Writing 1 makes it ready, except that the file-system device needs attached memory and
/// valid ring addresses and the network device refuses invalid addresses once memory is
/// attached (the queue then keeps its readiness). Any other value makes it not ready.
pub open spec fn ready_after(v: TransportView, val: u32, addresses_valid: bool) -> bool {
    if val != 1 {
        false
    } else {
        match v.kind {
            DeviceKind::Fs => if v.memory_attached && addresses_valid { true } else { selected_queue(v).ready },
            DeviceKind::Net => if v.memory_attached && !addresses_valid { selected_queue(v).ready } else { true },
            _ => true,
        }
    }
}

/// The 32-bit value at register `offset` (outside the configuration spaces that are read
/// byte by byte).
pub open spec fn register(v: TransportView, offset: u64) -> u32 {
    if offset == VIRTIO_MMIO_MAGIC {
        VIRTIO_MMIO_MAGIC_VALUE
    } else if offset == VIRTIO_MMIO_VERSION {
        2
    } else if offset == VIRTIO_MMIO_DEVICE_ID {
        device_id(v.kind)
    } else if offset == VIRTIO_MMIO_VENDOR_ID {
        VIRTIO_VENDOR_ID
    } else if offset == VIRTIO_MMIO_DEVICE_FEATURES {
        if v.device_features_sel == 0 { low32(v.device_features) } else { high32(v.device_features) }
    } else if offset == VIRTIO_MMIO_QUEUE_NUM_MAX {
        DEFAULT_QUEUE_SIZE as u32
    } else if offset == VIRTIO_MMIO_QUEUE_READY {
        if selected_in_range(v) && selected_queue(v).ready { 1 } else { 0 }
    } else if offset == VIRTIO_MMIO_INTERRUPT_STATUS {
        v.interrupt_status
    } else if offset == VIRTIO_MMIO_STATUS {
        v.device_status
    } else if v.kind == DeviceKind::Vsock && offset == VIRTIO_MMIO_CONFIG {
        low32(v.guest_cid)
    } else if v.kind == DeviceKind::Vsock && offset == VIRTIO_MMIO_CONFIG + 4 {
        high32(v.guest_cid)
    } else {
        0
    }
}

/// Byte `idx` of the file-system configuration space: the tag, zero-padded and cut at 36
/// bytes, then the number of request queues (1) little-endian.
pub open spec fn fs_config_byte(tag: Seq<u8>, idx: int) -> u8 {
    if idx < FS_TAG_SIZE {
        if idx < tag.len() { tag[idx] } else { 0 }
    } else if idx < FS_CONFIG_SIZE {
        bytes32(1)[idx - FS_TAG_SIZE]
    } else {
        0
    }
}

/// Whether `offset` lies in the file-system configuration space.
pub open spec fn in_fs_config(offset: u64) -> bool {
    VIRTIO_MMIO_CONFIG <= offset < VIRTIO_MMIO_CONFIG + FS_CONFIG_SIZE
}

/// Whether `offset` lies in the network configuration space (the MAC address).
pub open spec fn in_net_config(offset: u64) -> bool {
    VIRTIO_MMIO_CONFIG <= offset < VIRTIO_MMIO_CONFIG + 6
}

/// The buffer after the driver reads `data.len()` bytes at `offset`.
/// The file-system configuration space is read byte by byte at any width; a read in the
/// MAC address fills one byte; other registers fill the first four bytes with the value
/// (the file-system device fills as many of them as the buffer holds, the others only a
/// buffer of at least four bytes).
pub open spec fn read_result(v: TransportView, offset: u64, data: Seq<u8>) -> Seq<u8> {
    if v.kind == DeviceKind::Fs && in_fs_config(offset) {
        Seq::new(data.len(), |i: int| fs_config_byte(v.tag, offset - VIRTIO_MMIO_CONFIG + i))
    } else if v.kind == DeviceKind::Net && in_net_config(offset) {
        if data.len() > 0 { data.update(0, v.mac[offset - VIRTIO_MMIO_CONFIG]) } else { data }
    } else if v.kind == DeviceKind::Fs {
        Seq::new(data.len(), |i: int| if i < 4 { bytes32(register(v, offset))[i] } else { data[i] })
    } else if data.len() >= 4 {
        bytes32(register(v, offset)) + data.subrange(4, data.len() as int)
    } else {
        data
    }
}

/// The transport after the driver writes the 32-bit value `val` at `offset`;
/// `addresses_valid` says whether the selected queue's rings lie in guest memory.
pub open spec fn write_result(v: TransportView, offset: u64, val: u32, addresses_valid: bool) -> TransportView {
    let q = selected_queue(v);
    if offset == VIRTIO_MMIO_DEVICE_FEATURES_SEL {
        TransportView { device_features_sel: val, ..v }
    } else if offset == VIRTIO_MMIO_DRIVER_FEATURES_SEL {
        TransportView { driver_features_sel: val, ..v }
    } else if offset == VIRTIO_MMIO_DRIVER_FEATURES {
        if v.driver_features_sel == 0 {
            TransportView { driver_features: with_low32(v.driver_features, val), ..v }
        } else {
            TransportView { driver_features: with_high32(v.driver_features, val), ..v }
        }
    } else if offset == VIRTIO_MMIO_QUEUE_SEL {
        if v.kind == DeviceKind::Fs || val < queue_count(v.kind) {
            TransportView { queue_sel: val, ..v }
        } else {
            v
        }
    } else if offset == VIRTIO_MMIO_QUEUE_NUM {
        with_selected_queue(v, VirtioQueueState { size: val as u16, ..q })
    } else if offset == VIRTIO_MMIO_QUEUE_READY {
        with_selected_queue(v, VirtioQueueState { ready: ready_after(v, val, addresses_valid), ..q })
    } else if offset == VIRTIO_MMIO_INTERRUPT_ACK {
        TransportView { interrupt_status: v.interrupt_status & !val, ..v }
    } else if offset == VIRTIO_MMIO_STATUS {
        if val == 0 {
            TransportView {
                device_status: 0,
                queues: fresh_queues(queue_count(v.kind)),
                driver_features: if v.kind == DeviceKind::Fs { 0 } else { v.driver_features },
                ..v
            }
        } else {
            TransportView { device_status: val, ..v }
        }
    } else if offset == VIRTIO_MMIO_QUEUE_DESC_LOW {
        with_selected_queue(v, VirtioQueueState { desc_table: with_low32(q.desc_table, val), ..q })
    } else if offset == VIRTIO_MMIO_QUEUE_DESC_HIGH {
        with_selected_queue(v, VirtioQueueState { desc_table: with_high32(q.desc_table, val), ..q })
    } else if offset == VIRTIO_MMIO_QUEUE_AVAIL_LOW {
        with_selected_queue(v, VirtioQueueState { avail_ring: with_low32(q.avail_ring, val), ..q })
    } else if offset == VIRTIO_MMIO_QUEUE_AVAIL_HIGH {
        with_selected_queue(v, VirtioQueueState { avail_ring: with_high32(q.avail_ring, val), ..q })
    } else if offset == VIRTIO_MMIO_QUEUE_USED_LOW {
        with_selected_queue(v, VirtioQueueState { used_ring: with_low32(q.used_ring, val), ..q })
    } else if offset == VIRTIO_MMIO_QUEUE_USED_HIGH {
        with_selected_queue(v, VirtioQueueState { used_ring: with_high32(q.used_ring, val), ..q })
    } else {
        v
    }
}

/// What the device must do after the write of `val` at `offset`: a notification of the
/// request queue (file-system device) or of the receive or transmit queue once the driver
/// is ready (other devices) asks for that queue to be processed; a status write of 0 is a
/// reset.
pub open spec fn write_effect(v: TransportView, offset: u64, val: u32) -> MmioEffect {
    if offset == VIRTIO_MMIO_QUEUE_NOTIFY {
        if v.kind == DeviceKind::Fs {
            if val == 1 { MmioEffect::ProcessQueue(1) } else { MmioEffect::Nothing }
        } else if driver_ok(v) && (val == 0 || val == 1) {
            MmioEffect::ProcessQueue(val)
        } else {
            MmioEffect::Nothing
        }
    } else if offset == VIRTIO_MMIO_STATUS && val == 0 {
        MmioEffect::Reset
    } else {
        MmioEffect::Nothing
    }
}


/// `x` with its low 32 bits replaced by `v`.
pub fn set_low32(x: u64, v: u32) -> (r: u64)
    ensures
        r == with_low32(x, v),
{
    (x & 0xffff_ffff_0000_0000) | (v as u64)
}

/// `x` with its high 32 bits replaced by `v`.
pub fn set_high32(x: u64, v: u32) -> (r: u64)
    ensures
        r == with_high32(x, v),
{
    (x & 0x0000_0000_ffff_ffff) | ((v as u64) << 32)
}

/// `n` fresh queues of the default size.
fn fresh_queue_vec(n: usize) -> (r: Vec<VirtioQueueState>)
    ensures
        r@ == fresh_queues(n as nat),
{
    let mut r: Vec<VirtioQueueState> = Vec::new();
    let mut i: usize = 0;
    while i < n
        invariant
            i <= n,
            r@ == fresh_queues(i as nat),
        decreases n - i,
    {
        r.push(VirtioQueueState::default());
        i = i + 1;
        assert(r@ =~= fresh_queues(i as nat));
    }
    r
}

impl MmioTransport {
    fn with_config(kind: DeviceKind, features: u64, tag: Vec<u8>, mac: [u8; 6], guest_cid: u64) -> (r: MmioTransport)
        ensures
            r@ == initial_view(kind, features, tag@, mac@, guest_cid),
            transport_wf(r@),
    {
        let n: usize = match kind {
            DeviceKind::Vsock => 3,
            _ => 2,
        };
        MmioTransport {
            kind,
            device_features: features,
            driver_features: 0,
            device_features_sel: 0,
            driver_features_sel: 0,
            device_status: 0,
            queue_sel: 0,
            queues: fresh_queue_vec(n),
            interrupt_status: 0,
            memory_attached: false,
            tag,
            mac,
            guest_cid,
        }
    }

    /// The transport of a shared-directory device exporting `tag` (virtio 1.0 only).
    pub fn fs(tag: &str) -> (r: MmioTransport)
        ensures
            r@ == initial_view(DeviceKind::Fs, VIRTIO_F_VERSION_1, tag.spec_bytes(), seq![0u8, 0, 0, 0, 0, 0], 0),
            transport_wf(r@),
    {
        let bytes = vstd::slice::slice_to_vec(tag.as_bytes());
        MmioTransport::with_config(DeviceKind::Fs, VIRTIO_F_VERSION_1, bytes, [0, 0, 0, 0, 0, 0], 0)
    }

    /// The transport of a network device with address `mac` (virtio 1.0, MAC reported).
    pub fn net(mac: [u8; 6]) -> (r: MmioTransport)
        ensures
            r@ == initial_view(DeviceKind::Net, VIRTIO_F_VERSION_1 | VIRTIO_NET_F_MAC, Seq::empty(), mac@, 0),
            transport_wf(r@),
    {
        MmioTransport::with_config(DeviceKind::Net, VIRTIO_F_VERSION_1 | VIRTIO_NET_F_MAC, Vec::new(), mac, 0)
    }

    /// The transport of a console device (virtio 1.0 only).
    pub fn console() -> (r: MmioTransport)
        ensures
            r@ == initial_view(DeviceKind::Console, VIRTIO_F_VERSION_1, Seq::empty(), seq![0u8, 0, 0, 0, 0, 0], 0),
            transport_wf(r@),
    {
        MmioTransport::with_config(DeviceKind::Console, VIRTIO_F_VERSION_1, Vec::new(), [0, 0, 0, 0, 0, 0], 0)
    }

    /// The transport of a socket device for the guest context `guest_cid` (virtio 1.0 only).
    pub fn vsock(guest_cid: u64) -> (r: MmioTransport)
        ensures
            r@ == initial_view(DeviceKind::Vsock, VIRTIO_F_VERSION_1, Seq::empty(), seq![0u8, 0, 0, 0, 0, 0], guest_cid),
            transport_wf(r@),
    {
        MmioTransport::with_config(DeviceKind::Vsock, VIRTIO_F_VERSION_1, Vec::new(), [0, 0, 0, 0, 0, 0], guest_cid)
    }

    /// Records that guest memory is attached.
    pub fn set_memory_attached(&mut self)
        ensures
            final(self)@ == (TransportView { memory_attached: true, ..old(self)@ }),
    {
        self.memory_attached = true;
    }

    /// Whether the driver has set DRIVER_OK.
    pub fn is_activated(&self) -> (r: bool)
        ensures
            r == driver_ok(self@),
    {
        self.device_status & VIRTIO_STATUS_DRIVER_OK != 0
    }

    /// Marks the used ring as updated in the interrupt status; raising the interrupt line
    /// is the caller's part.
    pub fn signal_used_queue(&mut self)
        ensures
            final(self)@ == (TransportView { interrupt_status: old(self)@.interrupt_status | VIRTIO_INT_USED_RING, ..old(self)@ }),
    {
        self.interrupt_status = self.interrupt_status | VIRTIO_INT_USED_RING;
    }

    /// The state of queue `index`, if there is such a queue.
    pub fn queue(&self, index: usize) -> (r: Option<VirtioQueueState>)
        ensures
            r == (if index < self@.queues.len() { Some(self@.queues[index as int]) } else { None::<VirtioQueueState> }),
    {
        if index < self.queues.len() {
            Some(self.queues[index])
        } else {
            None
        }
    }

    /// Records how far the device has consumed and filled queue `index`.
    pub fn set_queue_progress(&mut self, index: usize, next_avail: u16, next_used: u16)
        requires
            index < old(self)@.queues.len(),
        ensures
            final(self)@ == (TransportView {
                queues: old(self)@.queues.update(index as int, VirtioQueueState {
                    next_avail,
                    next_used,
                    ..old(self)@.queues[index as int]
                }),
                ..old(self)@
            }),
    {
        let mut q = self.queues[index];
        q.next_avail = next_avail;
        q.next_used = next_used;
        self.queues.set(index, q);
    }

    /// The value of register `offset` outside the configuration spaces read byte by byte.
    pub fn register_value(&self, offset: u64) -> (r: u32)
        ensures
            r == register(self@, offset),
    {
        if offset == VIRTIO_MMIO_MAGIC {
            VIRTIO_MMIO_MAGIC_VALUE
        } else if offset == VIRTIO_MMIO_VERSION {
            2
        } else if offset == VIRTIO_MMIO_DEVICE_ID {
            match self.kind {
                DeviceKind::Fs => VIRTIO_ID_FS,
                DeviceKind::Net => VIRTIO_ID_NET,
                DeviceKind::Console => VIRTIO_ID_CONSOLE,
                DeviceKind::Vsock => VIRTIO_ID_VSOCK,
            }
        } else if offset == VIRTIO_MMIO_VENDOR_ID {
            VIRTIO_VENDOR_ID
        } else if offset == VIRTIO_MMIO_DEVICE_FEATURES {
            if self.device_features_sel == 0 {
                (self.device_features & 0xffff_ffff) as u32
            } else {
                (self.device_features >> 32) as u32
            }
        } else if offset == VIRTIO_MMIO_QUEUE_NUM_MAX {
            DEFAULT_QUEUE_SIZE as u32
        } else if offset == VIRTIO_MMIO_QUEUE_READY {
            let sel = self.queue_sel as usize;
            if sel < self.queues.len() && self.queues[sel].ready {
                1
            } else {
                0
            }
        } else if offset == VIRTIO_MMIO_INTERRUPT_STATUS {
            self.interrupt_status
        } else if offset == VIRTIO_MMIO_STATUS {
            self.device_status
        } else if self.kind == DeviceKind::Vsock && offset == VIRTIO_MMIO_CONFIG {
            (self.guest_cid & 0xffff_ffff) as u32
        } else if self.kind == DeviceKind::Vsock && offset == VIRTIO_MMIO_CONFIG + 4 {
            (self.guest_cid >> 32) as u32
        } else {
            0
        }
    }

    /// Byte `idx` of the file-system configuration space.
    fn fs_config_byte_at(&self, idx: u64) -> (r: u8)
        requires
            idx < FS_CONFIG_SIZE,
        ensures
            r == fs_config_byte(self@.tag, idx as int),
    {
        if idx < FS_TAG_SIZE {
            if (idx as usize) < self.tag.len() {
                self.tag[idx as usize]
            } else {
                0
            }
        } else {
            let b = u32_to_le_bytes(1);
            b[(idx - FS_TAG_SIZE) as usize]
        }
    }

    /// A driver read of `data.len()` bytes at `offset`.
    pub fn handle_mmio_read(&self, offset: u64, data: &mut [u8])
        requires
            transport_wf(self@),
        ensures
            final(data)@ == read_result(self@, offset, old(data)@),
    {
        let n = data.len();
        if self.kind == DeviceKind::Fs && VIRTIO_MMIO_CONFIG <= offset && offset < VIRTIO_MMIO_CONFIG + FS_CONFIG_SIZE {
            let base = offset - VIRTIO_MMIO_CONFIG;
            let mut i: usize = 0;
            while i < n
                invariant
                    i <= n,
                    n == data@.len(),
                    base < FS_CONFIG_SIZE,
                    base == offset - VIRTIO_MMIO_CONFIG,
                    forall|j: int| 0 <= j < i ==> data@[j] == fs_config_byte(self@.tag, base + j),
                decreases n - i,
            {
                let b = if (i as u64) < FS_CONFIG_SIZE - base {
                    self.fs_config_byte_at(base + i as u64)
                } else {
                    0
                };
                data[i] = b;
                i = i + 1;
            }
            assert(data@ =~= read_result(self@, offset, old(data)@));
        } else if self.kind == DeviceKind::Net && VIRTIO_MMIO_CONFIG <= offset && offset < VIRTIO_MMIO_CONFIG + 6 {
            if n > 0 {
                data[0] = self.mac[(offset - VIRTIO_MMIO_CONFIG) as usize];
            }
        } else {
            let val = self.register_value(offset);
            let vb = u32_to_le_bytes(val);
            proof {
                lemma_le_roundtrip();
                assert(bytes32(val).len() == 4);
            }
            if self.kind == DeviceKind::Fs {
                let mut i: usize = 0;
                while i < n && i < 4
                    invariant
                        i <= n,
                        i <= 4,
                        n == data@.len(),
                        vb@ == bytes32(val),
                        vb@.len() == 4,
                        forall|j: int| 0 <= j < i ==> data@[j] == vb@[j],
                        forall|j: int| i <= j < n ==> data@[j] == old(data)@[j],
                    decreases n - i,
                {
                    data[i] = vb[i];
                    i = i + 1;
                }
                assert(data@ =~= read_result(self@, offset, old(data)@));
            } else if n >= 4 {
                let mut i: usize = 0;
                while i < 4
                    invariant
                        i <= 4,
                        n >= 4,
                        n == data@.len(),
                        vb@ == bytes32(val),
                        vb@.len() == 4,
                        forall|j: int| 0 <= j < i ==> data@[j] == vb@[j],
                        forall|j: int| i <= j < n ==> data@[j] == old(data)@[j],
                    decreases 4 - i,
                {
                    data[i] = vb[i];
                    i = i + 1;
                }
                assert(data@ =~= read_result(self@, offset, old(data)@));
            }
        }
    }

    /// Replaces the selected queue, if one is selected.
    fn set_selected_queue(&mut self, q: VirtioQueueState)
        ensures
            final(self)@ == with_selected_queue(old(self)@, q),
    {
        let sel = self.queue_sel as usize;
        if sel < self.queues.len() {
            self.queues.set(sel, q);
        }
    }

    /// The selected queue, or a fresh one when none is selected.
    fn selected(&self) -> (r: VirtioQueueState)
        ensures
            selected_in_range(self@) ==> r == selected_queue(self@),
    {
        let sel = self.queue_sel as usize;
        if sel < self.queues.len() {
            self.queues[sel]
        } else {
            VirtioQueueState::default()
        }
    }

    /// A driver write of `data` at `offset`. Writes shorter than four bytes are ignored;
    /// otherwise the first four bytes, little-endian, are the value written.
    /// `addresses_valid` says whether the selected queue's rings lie in guest memory; it
    /// matters only for a write of 1 to QUEUE_READY.
    pub fn handle_mmio_write(&mut self, offset: u64, data: &[u8], addresses_valid: bool) -> (effect: MmioEffect)
        requires
            transport_wf(old(self)@),
        ensures
            transport_wf(final(self)@),
            data@.len() < 4 ==> final(self)@ == old(self)@ && effect == MmioEffect::Nothing,
            data@.len() >= 4 ==> final(self)@ == write_result(old(self)@, offset, le32(data@, 0), addresses_valid),
            data@.len() >= 4 ==> effect == write_effect(old(self)@, offset, le32(data@, 0)),
    {
        if data.len() < 4 {
            return MmioEffect::Nothing;
        }
        let val = read_u32(data, 0);
        let ghost v0 = self@;
        let q = self.selected();
        if offset == VIRTIO_MMIO_DEVICE_FEATURES_SEL {
            self.device_features_sel = val;
        } else if offset == VIRTIO_MMIO_DRIVER_FEATURES_SEL {
            self.driver_features_sel = val;
        } else if offset == VIRTIO_MMIO_DRIVER_FEATURES {
            if self.driver_features_sel == 0 {
                self.driver_features = set_low32(self.driver_features, val);
            } else {
                self.driver_features = set_high32(self.driver_features, val);
            }
        } else if offset == VIRTIO_MMIO_QUEUE_SEL {
            let accept = match self.kind {
                DeviceKind::Fs => true,
                DeviceKind::Vsock => val < 3,
                _ => val < 2,
            };
            if accept {
                self.queue_sel = val;
            }
        } else if offset == VIRTIO_MMIO_QUEUE_NUM {
            self.set_selected_queue(VirtioQueueState { size: val as u16, ..q });
        } else if offset == VIRTIO_MMIO_QUEUE_READY {
            let ready = if val != 1 {
                false
            } else {
                match self.kind {
                    DeviceKind::Fs => if self.memory_attached && addresses_valid { true } else { q.ready },
                    DeviceKind::Net => if self.memory_attached && !addresses_valid { q.ready } else { true },
                    _ => true,
                }
            };
            self.set_selected_queue(VirtioQueueState { ready, ..q });
        } else if offset == VIRTIO_MMIO_QUEUE_NOTIFY {
            let effect = if self.kind == DeviceKind::Fs {
                if val == 1 { MmioEffect::ProcessQueue(1) } else { MmioEffect::Nothing }
            } else if self.is_activated() && (val == 0 || val == 1) {
                MmioEffect::ProcessQueue(val)
            } else {
                MmioEffect::Nothing
            };
            return effect;
        } else if offset == VIRTIO_MMIO_INTERRUPT_ACK {
            self.interrupt_status = self.interrupt_status & !val;
        } else if offset == VIRTIO_MMIO_STATUS {
            if val == 0 {
                self.device_status = 0;
                let n: usize = match self.kind {
                    DeviceKind::Vsock => 3,
                    _ => 2,
                };
                self.queues = fresh_queue_vec(n);
                if self.kind == DeviceKind::Fs {
                    self.driver_features = 0;
                }
                return MmioEffect::Reset;
            } else {
                self.device_status = val;
            }
        } else if offset == VIRTIO_MMIO_QUEUE_DESC_LOW {
            self.set_selected_queue(VirtioQueueState { desc_table: set_low32(q.desc_table, val), ..q });
        } else if offset == VIRTIO_MMIO_QUEUE_DESC_HIGH {
            self.set_selected_queue(VirtioQueueState { desc_table: set_high32(q.desc_table, val), ..q });
        } else if offset == VIRTIO_MMIO_QUEUE_AVAIL_LOW {
            self.set_selected_queue(VirtioQueueState { avail_ring: set_low32(q.avail_ring, val), ..q });
        } else if offset == VIRTIO_MMIO_QUEUE_AVAIL_HIGH {
            self.set_selected_queue(VirtioQueueState { avail_ring: set_high32(q.avail_ring, val), ..q });
        } else if offset == VIRTIO_MMIO_QUEUE_USED_LOW {
            self.set_selected_queue(VirtioQueueState { used_ring: set_low32(q.used_ring, val), ..q });
        } else if offset == VIRTIO_MMIO_QUEUE_USED_HIGH {
            self.set_selected_queue(VirtioQueueState { used_ring: set_high32(q.used_ring, val), ..q });
        }
        MmioEffect::Nothing
    }
}


/// The device-id register (offset 0x08) names the device by its virtio id: 26 for the
/// shared file system, 1 for the network card, 3 for the console and 19 for the socket
/// device; a four-byte read there gives that id little-endian.
pub proof fn law_device_id_by_kind(v: TransportView, data: Seq<u8>)
    requires
        data.len() == 4,
    ensures
        register(v, 0x08) == match v.kind {
            DeviceKind::Fs => 26u32,
            DeviceKind::Net => 1u32,
            DeviceKind::Console => 3u32,
            DeviceKind::Vsock => 19u32,
        },
        read_result(v, 0x08, data) == bytes32(register(v, 0x08)),
{
    crate::wire::lemma_le_roundtrip();
    let r = read_result(v, 0x08, data);
    if v.kind == DeviceKind::Fs {
        assert(r =~= bytes32(register(v, 0x08)));
    } else {
        assert(data.subrange(4, 4) =~= Seq::<u8>::empty());
        assert(r =~= bytes32(register(v, 0x08)));
    }
}

/// A status write of 0 resets the device: the status reads 0, every queue is fresh (so no
/// queue reads as ready), and the driver is told nothing is pending beyond the reset.
pub proof fn law_status_zero_resets(v: TransportView, addresses_valid: bool)
    requires
        transport_wf(v),
    ensures
        ({
            let w = write_result(v, VIRTIO_MMIO_STATUS, 0, addresses_valid);
            &&& w.device_status == 0
            &&& w.queues == fresh_queues(queue_count(v.kind))
            &&& register(w, VIRTIO_MMIO_STATUS) == 0
            &&& register(w, VIRTIO_MMIO_QUEUE_READY) == 0
            &&& transport_wf(w)
        }),
        write_effect(v, VIRTIO_MMIO_STATUS, 0) == MmioEffect::Reset,
{
}

/// After the driver selects feature word `sel`, DEVICE_FEATURES reads the low half of the
/// device features for 0 and the high half otherwise.
pub proof fn law_feature_select_reads_half(v: TransportView, sel: u32, addresses_valid: bool)
    ensures
        ({
            let w = write_result(v, VIRTIO_MMIO_DEVICE_FEATURES_SEL, sel, addresses_valid);
            register(w, VIRTIO_MMIO_DEVICE_FEATURES) == if sel == 0 { low32(v.device_features) } else { high32(v.device_features) }
        }),
{
}

/// Driver features written word by word are kept word by word: selecting word 0 and
/// writing `lo`, then word 1 and writing `hi`, leaves `hi:lo` as the driver features.
pub proof fn law_driver_features_from_words(v: TransportView, lo: u32, hi: u32, valid: bool)
    ensures
        ({
            let w1 = write_result(v, VIRTIO_MMIO_DRIVER_FEATURES_SEL, 0, valid);
            let w2 = write_result(w1, VIRTIO_MMIO_DRIVER_FEATURES, lo, valid);
            let w3 = write_result(w2, VIRTIO_MMIO_DRIVER_FEATURES_SEL, 1, valid);
            let w4 = write_result(w3, VIRTIO_MMIO_DRIVER_FEATURES, hi, valid);
            w4.driver_features == ((hi as u64) << 32) | (lo as u64)
        }),
{
    law_register_from_halves(v.driver_features, lo, hi);
}

/// A ring address written low word then high word is the selected queue's address, for
/// each of the descriptor table, available ring and used ring; other queues are untouched.
pub proof fn law_queue_address_from_words(v: TransportView, lo: u32, hi: u32, valid: bool)
    requires
        transport_wf(v),
        selected_in_range(v),
    ensures
        ({
            let d = write_result(write_result(v, VIRTIO_MMIO_QUEUE_DESC_LOW, lo, valid), VIRTIO_MMIO_QUEUE_DESC_HIGH, hi, valid);
            let a = write_result(write_result(v, VIRTIO_MMIO_QUEUE_AVAIL_LOW, lo, valid), VIRTIO_MMIO_QUEUE_AVAIL_HIGH, hi, valid);
            let u = write_result(write_result(v, VIRTIO_MMIO_QUEUE_USED_LOW, lo, valid), VIRTIO_MMIO_QUEUE_USED_HIGH, hi, valid);
            &&& selected_queue(d).desc_table == ((hi as u64) << 32) | (lo as u64)
            &&& selected_queue(a).avail_ring == ((hi as u64) << 32) | (lo as u64)
            &&& selected_queue(u).used_ring == ((hi as u64) << 32) | (lo as u64)
            &&& forall|i: int| 0 <= i < v.queues.len() && i != v.queue_sel ==> #[trigger] d.queues[i] == v.queues[i]
            &&& transport_wf(d) && transport_wf(a) && transport_wf(u)
        }),
{
    let q = selected_queue(v);
    law_register_from_halves(q.desc_table, lo, hi);
    law_register_from_halves(q.avail_ring, lo, hi);
    law_register_from_halves(q.used_ring, lo, hi);
}

/// Acknowledging interrupt bits clears exactly those bits of the interrupt status.
pub proof fn law_interrupt_ack_clears(v: TransportView, val: u32, valid: bool)
    ensures
        ({
            let s = register(write_result(v, VIRTIO_MMIO_INTERRUPT_ACK, val, valid), VIRTIO_MMIO_INTERRUPT_STATUS);
            &&& s & val == 0
            &&& s | (v.interrupt_status & val) == v.interrupt_status
        }),
{
    let x = v.interrupt_status;
    assert((x & !val) & val == 0) by (bit_vector);
    assert((x & !val) | (x & val) == x) by (bit_vector);
}


/// Descriptor flag: the chain continues at `next`.
pub const VIRTQ_DESC_F_NEXT: u16 = 1;
/// Descriptor flag: the buffer is written by the device (otherwise read by it).
pub const VIRTQ_DESC_F_WRITE: u16 = 2;
/// Size of a descriptor in the descriptor table.
pub const VIRTQ_DESC_SIZE: u64 = 16;

/// One entry of a descriptor table.
#[derive(Clone, Copy, Debug, PartialEq, Eq, Structural)]
pub struct Descriptor {
    pub addr: u64,
    pub len: u32,
    pub flags: u16,
    pub next: u16,
}

impl Descriptor {
    /// The descriptor the first 16 bytes of `s` encode.
    pub open spec fn parse(s: Seq<u8>) -> Descriptor {
        Descriptor { addr: le64(s, 0), len: le32(s, 8), flags: le16(s, 12), next: le16(s, 14) }
    }

    /// Parses the first 16 bytes of `data`.
    pub fn from_bytes(data: &[u8]) -> (r: Option<Descriptor>)
        ensures
            r == (if data@.len() < 16 { None } else { Some(Descriptor::parse(data@)) }),
    {
        if data.len() < 16 {
            return None;
        }
        Some(Descriptor {
            addr: read_u64(data, 0),
            len: read_u32(data, 8),
            flags: read_u16(data, 12),
            next: read_u16(data, 14),
        })
    }

    /// Whether the device writes this buffer.
    pub open spec fn spec_write_only(self) -> bool {
        self.flags & VIRTQ_DESC_F_WRITE != 0
    }

    /// Whether the chain continues after this descriptor.
    pub open spec fn spec_has_next(self) -> bool {
        self.flags & VIRTQ_DESC_F_NEXT != 0
    }

    pub fn is_write_only(&self) -> (r: bool)
        ensures
            r == self.spec_write_only(),
    {
        self.flags & VIRTQ_DESC_F_WRITE != 0
    }

    pub fn has_next(&self) -> (r: bool)
        ensures
            r == self.spec_has_next(),
    {
        self.flags & VIRTQ_DESC_F_NEXT != 0
    }
}

/// Address of descriptor `idx` of the table at `table`.
pub fn descriptor_addr(table: u64, idx: u16) -> (r: u64)
    requires
        table + idx * VIRTQ_DESC_SIZE <= u64::MAX,
    ensures
        r == table + idx * VIRTQ_DESC_SIZE,
{
    table + idx as u64 * VIRTQ_DESC_SIZE
}

/// Address of the available ring's index (the driver's producer count).
pub fn avail_idx_addr(ring: u64) -> (r: u64)
    requires
        ring + 2 <= u64::MAX,
    ensures
        r == ring + 2,
{
    ring + 2
}

/// Address of the available-ring slot for the `next_avail`-th entry of a queue of `size`.
pub fn avail_entry_addr(ring: u64, next_avail: u16, size: u16) -> (r: u64)
    requires
        size > 0,
        ring + 4 + 2 * (size - 1) <= u64::MAX,
    ensures
        r == ring + 4 + 2 * (next_avail % size),
{
    ring + 4 + (next_avail as u64 % size as u64) * 2
}

/// Address of the used ring's index (the device's producer count).
pub fn used_idx_addr(ring: u64) -> (r: u64)
    requires
        ring + 2 <= u64::MAX,
    ensures
        r == ring + 2,
{
    ring + 2
}

/// Address of the used-ring element for the `next_used`-th entry of a queue of `size`.
pub fn used_entry_addr(ring: u64, next_used: u16, size: u16) -> (r: u64)
    requires
        size > 0,
        ring + 4 + 8 * (size - 1) + 4 <= u64::MAX,
    ensures
        r == ring + 4 + 8 * (next_used % size),
{
    ring + 4 + (next_used as u64 % size as u64) * 8
}

/// The smaller of two numbers.
pub open spec fn min_nat(a: nat, b: nat) -> nat {
    if a <= b { a } else { b }
}

/// The buffers a device reads of a chain whose first `i` descriptors are `descs[..i]`:
/// each one the driver wrote, with its length cut at `MAX_DESCRIPTOR_LEN`.
pub open spec fn read_segments(descs: Seq<Descriptor>, i: nat) -> Seq<(u64, u32)>
    decreases i,
{
    if i == 0 || i > descs.len() {
        Seq::empty()
    } else {
        let d = descs[i - 1];
        let rest = read_segments(descs, (i - 1) as nat);
        if !d.spec_write_only() {
            rest.push((d.addr, min_nat(d.len as nat, MAX_DESCRIPTOR_LEN as nat) as u32))
        } else {
            rest
        }
    }
}

/// Bytes of a `total`-byte response placed in the first `i` descriptors.
pub open spec fn written_before(descs: Seq<Descriptor>, i: nat, total: nat) -> nat
    decreases i,
{
    if i == 0 || i > descs.len() {
        0
    } else {
        let w = written_before(descs, (i - 1) as nat, total);
        let d = descs[i - 1];
        if d.spec_write_only() && w < total {
            w + min_nat((total - w) as nat, d.len as nat)
        } else {
            w
        }
    }
}

/// Where a `total`-byte response goes in the first `i` descriptors of a chain: for each
/// device-writable buffer while bytes remain, (buffer address, offset in the response,
/// byte count), filling each buffer up to its length.
pub open spec fn write_segments(descs: Seq<Descriptor>, i: nat, total: nat) -> Seq<(u64, nat, nat)>
    decreases i,
{
    if i == 0 || i > descs.len() {
        Seq::empty()
    } else {
        let w = written_before(descs, (i - 1) as nat, total);
        let d = descs[i - 1];
        let rest = write_segments(descs, (i - 1) as nat, total);
        if d.spec_write_only() && w < total {
            rest.push((d.addr, w, min_nat((total - w) as nat, d.len as nat)))
        } else {
            rest
        }
    }
}

/// The buffers the device reads of the chain `descs`.
pub fn read_plan(descs: &[Descriptor]) -> (r: Vec<(u64, u32)>)
    ensures
        r@ == read_segments(descs@, descs@.len()),
{
    let mut r: Vec<(u64, u32)> = Vec::new();
    let mut i: usize = 0;
    while i < descs.len()
        invariant
            i <= descs@.len(),
            r@ == read_segments(descs@, i as nat),
        decreases descs@.len() - i,
    {
        let d = descs[i];
        if !d.is_write_only() {
            let len = if d.len < MAX_DESCRIPTOR_LEN { d.len } else { MAX_DESCRIPTOR_LEN };
            r.push((d.addr, len));
        }
        i = i + 1;
    }
    r
}

/// Where a response of `total` bytes goes in the chain `descs`, as (buffer address,
/// offset in the response, byte count).
pub fn write_plan(descs: &[Descriptor], total: usize) -> (r: Vec<(u64, usize, usize)>)
    ensures
        r@.len() == write_segments(descs@, descs@.len(), total as nat).len(),
        forall|k: int| 0 <= k < r@.len() ==> {
            let s = write_segments(descs@, descs@.len(), total as nat)[k];
            &&& (#[trigger] r@[k]).0 == s.0
            &&& r@[k].1 == s.1
            &&& r@[k].2 == s.2
        },
{
    let mut r: Vec<(u64, usize, usize)> = Vec::new();
    let mut written: usize = 0;
    let mut i: usize = 0;
    while i < descs.len()
        invariant
            i <= descs@.len(),
            written == written_before(descs@, i as nat, total as nat),
            written <= total,
            r@.len() == write_segments(descs@, i as nat, total as nat).len(),
            forall|k: int| 0 <= k < r@.len() ==> {
                let s = write_segments(descs@, i as nat, total as nat)[k];
                &&& (#[trigger] r@[k]).0 == s.0
                &&& r@[k].1 == s.1
                &&& r@[k].2 == s.2
            },
        decreases descs@.len() - i,
    {
        let d = descs[i];
        if d.is_write_only() && written < total {
            let remaining = total - written;
            let n = if (d.len as usize) < remaining { d.len as usize } else { remaining };
            r.push((d.addr, written, n));
            written = written + n;
        }
        i = i + 1;
    }
    r
}

proof fn lemma_written_bounded(descs: Seq<Descriptor>, i: nat, total: nat)
    ensures
        written_before(descs, i, total) <= total,
    decreases i,
{
    if i > 0 && i <= descs.len() {
        lemma_written_bounded(descs, (i - 1) as nat, total);
    }
}

/// A response is laid into the chain's writable buffers in one piece: the first segment
/// starts at offset 0, each segment starts where the one before ended, and the last ends
/// at the number of bytes placed, which never exceeds the response.
pub proof fn law_write_segments_tile(descs: Seq<Descriptor>, i: nat, total: nat)
    ensures
        ({
            let s = write_segments(descs, i, total);
            &&& s.len() > 0 ==> s[0].1 == 0
            &&& forall|k: int| 0 <= k < s.len() - 1 ==> #[trigger] s[k].1 + s[k].2 == s[k + 1].1
            &&& s.len() > 0 ==> s.last().1 + s.last().2 == written_before(descs, i, total)
            &&& s.len() == 0 ==> written_before(descs, i, total) == 0
            &&& written_before(descs, i, total) <= total
        }),
    decreases i,
{
    lemma_written_bounded(descs, i, total);
    if i > 0 && i <= descs.len() {
        law_write_segments_tile(descs, (i - 1) as nat, total);
        let prev = write_segments(descs, (i - 1) as nat, total);
        let s = write_segments(descs, i, total);
        let w = written_before(descs, (i - 1) as nat, total);
        let d = descs[i - 1];
        if d.spec_write_only() && w < total {
            assert(s == prev.push((d.addr, w, min_nat((total - w) as nat, d.len as nat))));
            assert forall|k: int| 0 <= k < s.len() - 1 implies #[trigger] s[k].1 + s[k].2 == s[k + 1].1 by {
                if k < prev.len() - 1 {
                    assert(s[k] == prev[k] && s[k + 1] == prev[k + 1]);
                } else {
                    assert(s[k] == prev[k]);
                }
            }
        }
    }
}

} // verus!
