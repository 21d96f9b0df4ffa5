//! What an x86_64 guest finds in memory and registers when it starts: the memory layout,
//! the MP table, the e820 map, the identity page tables, the GDT and the initial CPU state.
use vstd::prelude::*;
use crate::wire::{bytes16, bytes32, bytes64, zeros, put_u16, put_u32, put_u64, put_zeros, put_bytes, lemma_le_roundtrip};
use vstd::string::StringSliceAdditionalSpecFns;

verus! {

/// GDT location in low memory.
pub const BOOT_GDT_OFFSET: u64 = 0x500;
/// IDT location in low memory.
pub const BOOT_IDT_OFFSET: u64 = 0x520;
/// Initial stack pointer of the boot CPU.
pub const BOOT_STACK_POINTER: u64 = 0x8000;
/// Page Map Level 4 table.
pub const PML4_START: u64 = 0x9000;
/// Page Directory Pointer table.
pub const PDPTE_START: u64 = 0xa000;
/// Page Directory table.
pub const PDE_START: u64 = 0xb000;
/// Kernel command line.
pub const CMDLINE_OFFSET: u64 = 0x20000;
/// Largest kernel command line (64 KiB).
pub const CMDLINE_MAX_SIZE: u64 = 0x10000;
/// Kernel load address (16 MiB).
pub const KERNEL_LOAD_ADDR: u64 = 0x1000000;
/// Initrd load address (64 MiB).
pub const INITRD_LOAD_ADDR: u64 = 0x4000000;
/// Boot parameters (`struct boot_params`).
pub const BOOT_PARAMS_ADDR: u64 = 0x7000;
/// Start of guest RAM.
pub const MEM_START: u64 = 0;
/// Where the MP floating pointer structure goes (in the EBDA).
pub const MPTABLE_START: u64 = 0x9_fc00;
/// Start of high memory.
pub const HIGH_MEM_START: u64 = 0x100000;

/// Where the initrd is loaded, whatever the kernel's end.
pub fn initrd_load_addr(kernel_end: u64) -> (r: u64)
    ensures
        r == INITRD_LOAD_ADDR,
{
    INITRD_LOAD_ADDR
}

/// Number of legacy IRQs routed in the MP table.
pub const MAX_IRQ: u8 = 24;
/// IOAPIC base address.
pub const IO_APIC_DEFAULT_PHYS_BASE: u32 = 0xfec0_0000;
/// Local APIC base address.
pub const APIC_DEFAULT_PHYS_BASE: u32 = 0xfee0_0000;
/// APIC version reported (KVM's in-kernel APIC).
pub const APIC_VERSION: u8 = 0x14;
/// MP specification version 1.4.
pub const MPC_SPEC: u8 = 4;

/// Size of the MP floating pointer structure.
pub const MPF_SIZE: u64 = 16;
/// Size of the MP configuration table header.
pub const MPC_TABLE_SIZE: u64 = 44;
/// Size of an MP processor entry.
pub const MPC_CPU_SIZE: u64 = 20;

/// The sum of the bytes of `s`.
pub open spec fn byte_sum(s: Seq<u8>) -> nat
    decreases s.len(),
{
    if s.len() == 0 {
        0
    } else {
        byte_sum(s.drop_last()) + s.last() as nat
    }
}

proof fn lemma_byte_sum_concat(a: Seq<u8>, b: Seq<u8>)
    ensures
        byte_sum(a + b) == byte_sum(a) + byte_sum(b),
    decreases b.len(),
{
    if b.len() == 0 {
        assert(a + b =~= a);
    } else {
        lemma_byte_sum_concat(a, b.drop_last());
        assert((a + b).drop_last() =~= a + b.drop_last());
    }
}

proof fn lemma_byte_sum_update(s: Seq<u8>, i: int, v: u8)
    requires
        0 <= i < s.len(),
    ensures
        byte_sum(s.update(i, v)) + s[i] == byte_sum(s) + v,
{
    let a = s.subrange(0, i);
    let b = s.subrange(i + 1, s.len() as int);
    assert(s =~= a + seq![s[i]] + b);
    assert(s.update(i, v) =~= a + seq![v] + b);
    lemma_byte_sum_concat(a + seq![s[i]], b);
    lemma_byte_sum_concat(a, seq![s[i]]);
    lemma_byte_sum_concat(a + seq![v], b);
    lemma_byte_sum_concat(a, seq![v]);
    assert(seq![v].drop_last() =~= Seq::<u8>::empty());
    assert(seq![s[i]].drop_last() =~= Seq::<u8>::empty());
}

/// The checksum byte that makes a table whose other bytes sum to `sum` add up to 0 mod 256.
pub open spec fn checksum_for(sum: nat) -> u8 {
    ((256 - sum % 256) % 256) as u8
}

/// One processor entry: APIC id `id`, enabled, the boot processor when `id` is 0.
pub open spec fn cpu_entry(id: u8) -> Seq<u8> {
    seq![0u8, id, APIC_VERSION, if id == 0 { 3u8 } else { 1u8 }] + bytes32(0x600) + bytes32(0x201) + zeros(8)
}

/// Processor entries for APIC ids `0..n`.
pub open spec fn cpu_entries(n: nat) -> Seq<u8>
    decreases n,
{
    if n == 0 {
        Seq::empty()
    } else {
        cpu_entries((n - 1) as nat) + cpu_entry((n - 1) as u8)
    }
}

/// The ISA bus entry.
pub open spec fn bus_entry() -> Seq<u8> {
    seq![1u8, 0u8, 0x49u8, 0x53u8, 0x41u8, 0x20u8, 0x20u8, 0x20u8]
}

/// The IOAPIC entry with id `id`.
pub open spec fn ioapic_entry(id: u8) -> Seq<u8> {
    seq![2u8, id, APIC_VERSION, 1u8] + bytes32(IO_APIC_DEFAULT_PHYS_BASE)
}

/// The entry routing ISA IRQ `irq` to pin `irq` of IOAPIC `apic`.
pub open spec fn intsrc_entry(irq: u8, apic: u8) -> Seq<u8> {
    seq![3u8, 0u8] + bytes16(0) + seq![0u8, irq, apic, irq]
}

/// Interrupt source entries for IRQs `0..k`.
pub open spec fn intsrc_entries(k: nat, apic: u8) -> Seq<u8>
    decreases k,
{
    if k == 0 {
        Seq::empty()
    } else {
        intsrc_entries((k - 1) as nat, apic) + intsrc_entry((k - 1) as u8, apic)
    }
}

/// A local interrupt entry of type `irqtype` to LINT pin `lint` of every local APIC.
pub open spec fn lint_entry(irqtype: u8, lint: u8) -> Seq<u8> {
    seq![4u8, irqtype] + bytes16(0) + seq![0u8, 0u8, 0xffu8, lint]
}

/// Length of the configuration table for `n` processors.
pub open spec fn config_table_len(n: nat) -> nat {
    MPC_TABLE_SIZE as nat + MPC_CPU_SIZE as nat * n + 8 + 8 + 8 * MAX_IRQ as nat + 16
}

/// The configuration table header for `n` processors with checksum byte `cks`.
pub open spec fn mpc_header(n: u8, cks: u8) -> Seq<u8> {
    seq![0x50u8, 0x43u8, 0x4du8, 0x50u8] + bytes16(config_table_len(n as nat) as u16) + seq![MPC_SPEC, cks]
        + seq![0x43u8, 0x41u8, 0x50u8, 0x53u8, 0x41u8, 0x20u8, 0x20u8, 0x20u8]
        + seq![0x4bu8, 0x56u8, 0x4du8, 0x56u8, 0x4du8, 0x20u8, 0x20u8, 0x20u8, 0x20u8, 0x20u8, 0x20u8, 0x20u8]
        + bytes32(0) + bytes16(0) + bytes16((n as nat + 28) as u16) + bytes32(APIC_DEFAULT_PHYS_BASE) + bytes32(0)
}

/// The configuration table for `n` processors before its checksum is filled in: the
/// processors, the ISA bus, the IOAPIC (id `n + 1`), the 24 ISA interrupts routed to it, and
/// ExtINT and NMI to every local APIC.
pub open spec fn config_table_unsummed(n: u8) -> Seq<u8> {
    mpc_header(n, 0) + cpu_entries(n as nat) + bus_entry() + ioapic_entry((n + 1) as u8)
        + intsrc_entries(MAX_IRQ as nat, (n + 1) as u8) + lint_entry(3, 0) + lint_entry(1, 1)
}

/// The configuration table for `n` processors, checksummed.
pub open spec fn config_table(n: u8) -> Seq<u8> {
    config_table_unsummed(n).update(7, checksum_for(byte_sum(config_table_unsummed(n))))
}

/// The floating pointer structure pointing at the configuration table that follows it,
/// before its checksum is filled in.
pub open spec fn mpf_unsummed() -> Seq<u8> {
    seq![0x5fu8, 0x4du8, 0x50u8, 0x5fu8] + bytes32((MPTABLE_START + MPF_SIZE) as u32)
        + seq![1u8, MPC_SPEC, 0u8, 0u8, 0u8, 0u8, 0u8, 0u8]
}

/// The floating pointer structure, checksummed.
pub open spec fn mpf_bytes() -> Seq<u8> {
    mpf_unsummed().update(10, checksum_for(byte_sum(mpf_unsummed())))
}

/// Sum of the bytes of `s`, wrapping at 256.
fn checksum_of(s: &[u8]) -> (r: u8)
    requires
        s@.len() < 0x1_0000_0000,
    ensures
        r == checksum_for(byte_sum(s@)),
{
    let mut acc: u64 = 0;
    let mut i: usize = 0;
    while i < s.len()
        invariant
            i <= s@.len(),
            s@.len() < 0x1_0000_0000,
            acc == byte_sum(s@.subrange(0, i as int)),
            acc <= 255 * i,
        decreases s@.len() - i,
    {
        proof {
            assert(s@.subrange(0, i + 1).drop_last() =~= s@.subrange(0, i as int));
        }
        acc = acc + s[i] as u64;
        i = i + 1;
    }
    assert(s@.subrange(0, i as int) =~= s@);
    ((256 - acc % 256) % 256) as u8
}


fn put_cpu_entry(buf: &mut Vec<u8>, id: u8)
    ensures
        final(buf)@ == old(buf)@ + cpu_entry(id),
{
    let ghost b0 = buf@;
    buf.push(0);
    buf.push(id);
    buf.push(APIC_VERSION);
    buf.push(if id == 0 { 3 } else { 1 });
    put_u32(buf, 0x600);
    put_u32(buf, 0x201);
    put_zeros(buf, 8);
    assert(buf@ =~= b0 + cpu_entry(id));
}

fn put_bus_entry(buf: &mut Vec<u8>)
    ensures
        final(buf)@ == old(buf)@ + bus_entry(),
{
    let ghost b0 = buf@;
    buf.push(1);
    buf.push(0);
    buf.push(0x49);
    buf.push(0x53);
    buf.push(0x41);
    buf.push(0x20);
    buf.push(0x20);
    buf.push(0x20);
    assert(buf@ =~= b0 + bus_entry());
}

fn put_ioapic_entry(buf: &mut Vec<u8>, id: u8)
    ensures
        final(buf)@ == old(buf)@ + ioapic_entry(id),
{
    let ghost b0 = buf@;
    buf.push(2);
    buf.push(id);
    buf.push(APIC_VERSION);
    buf.push(1);
    put_u32(buf, IO_APIC_DEFAULT_PHYS_BASE);
    assert(buf@ =~= b0 + ioapic_entry(id));
}

fn put_intsrc_entry(buf: &mut Vec<u8>, irq: u8, apic: u8)
    ensures
        final(buf)@ == old(buf)@ + intsrc_entry(irq, apic),
{
    let ghost b0 = buf@;
    buf.push(3);
    buf.push(0);
    put_u16(buf, 0);
    buf.push(0);
    buf.push(irq);
    buf.push(apic);
    buf.push(irq);
    assert(buf@ =~= b0 + intsrc_entry(irq, apic));
}

fn put_lint_entry(buf: &mut Vec<u8>, irqtype: u8, lint: u8)
    ensures
        final(buf)@ == old(buf)@ + lint_entry(irqtype, lint),
{
    let ghost b0 = buf@;
    buf.push(4);
    buf.push(irqtype);
    put_u16(buf, 0);
    buf.push(0);
    buf.push(0);
    buf.push(0xff);
    buf.push(lint);
    assert(buf@ =~= b0 + lint_entry(irqtype, lint));
}

fn put_mpc_header(buf: &mut Vec<u8>, n: u8)
    requires
        n < 255,
    ensures
        final(buf)@ == old(buf)@ + mpc_header(n, 0),
{
    let ghost b0 = buf@;
    buf.push(0x50);
    buf.push(0x43);
    buf.push(0x4d);
    buf.push(0x50);
    let len: u16 = 44 + 20 * (n as u16) + 8 + 8 + 8 * 24 + 16;
    put_u16(buf, len);
    buf.push(MPC_SPEC);
    buf.push(0);
    buf.push(0x43);
    buf.push(0x41);
    buf.push(0x50);
    buf.push(0x53);
    buf.push(0x41);
    buf.push(0x20);
    buf.push(0x20);
    buf.push(0x20);
    buf.push(0x4b);
    buf.push(0x56);
    buf.push(0x4d);
    buf.push(0x56);
    buf.push(0x4d);
    let mut k: usize = 0;
    while k < 7
        invariant
            k <= 7,
            buf@ == old(buf)@ + seq![0x50u8, 0x43u8, 0x4du8, 0x50u8] + bytes16(len) + seq![MPC_SPEC, 0u8]
                + seq![0x43u8, 0x41u8, 0x50u8, 0x53u8, 0x41u8, 0x20u8, 0x20u8, 0x20u8]
                + seq![0x4bu8, 0x56u8, 0x4du8, 0x56u8, 0x4du8] + Seq::new(k as nat, |i: int| 0x20u8),
        decreases 7 - k,
    {
        let ghost before = buf@;
        buf.push(0x20);
        k = k + 1;
        assert(buf@ =~= old(buf)@ + seq![0x50u8, 0x43u8, 0x4du8, 0x50u8] + bytes16(len) + seq![MPC_SPEC, 0u8]
                + seq![0x43u8, 0x41u8, 0x50u8, 0x53u8, 0x41u8, 0x20u8, 0x20u8, 0x20u8]
                + seq![0x4bu8, 0x56u8, 0x4du8, 0x56u8, 0x4du8] + Seq::new(k as nat, |i: int| 0x20u8));
    }
    put_u32(buf, 0);
    put_u16(buf, 0);
    put_u16(buf, n as u16 + 28);
    put_u32(buf, APIC_DEFAULT_PHYS_BASE);
    put_u32(buf, 0);
    assert(len == config_table_len(n as nat) as u16);
    assert(seq![0x4bu8, 0x56u8, 0x4du8, 0x56u8, 0x4du8] + Seq::new(7, |i: int| 0x20u8)
        =~= seq![0x4bu8, 0x56u8, 0x4du8, 0x56u8, 0x4du8, 0x20u8, 0x20u8, 0x20u8, 0x20u8, 0x20u8, 0x20u8, 0x20u8]);
    assert(buf@ =~= b0 + mpc_header(n, 0));
}

fn put_mpf_unsummed(buf: &mut Vec<u8>)
    ensures
        final(buf)@ == old(buf)@ + mpf_unsummed(),
{
    let ghost b0 = buf@;
    buf.push(0x5f);
    buf.push(0x4d);
    buf.push(0x50);
    buf.push(0x5f);
    put_u32(buf, (MPTABLE_START + MPF_SIZE) as u32);
    buf.push(1);
    buf.push(MPC_SPEC);
    put_zeros(buf, 6);
    assert(zeros(6) =~= seq![0u8, 0u8, 0u8, 0u8, 0u8, 0u8]);
    assert(buf@ =~= b0 + mpf_unsummed());
}

/// The MP tables for `num_cpus` processors as they are placed at `MPTABLE_START`: the
/// floating pointer structure, then the configuration table it points to.
pub fn mptable_bytes(num_cpus: u8) -> (r: Vec<u8>)
    requires
        num_cpus < 255,
    ensures
        r@ == mpf_bytes() + config_table(num_cpus),
{
    let mut t: Vec<u8> = Vec::new();
    put_mpc_header(&mut t, num_cpus);
    assert(t@ =~= mpc_header(num_cpus, 0) + cpu_entries(0));
    let mut id: u8 = 0;
    while id < num_cpus
        invariant
            id <= num_cpus,
            t@ == mpc_header(num_cpus, 0) + cpu_entries(id as nat),
        decreases num_cpus - id,
    {
        put_cpu_entry(&mut t, id);
        id = id + 1;
        assert(t@ =~= mpc_header(num_cpus, 0) + cpu_entries(id as nat));
    }
    put_bus_entry(&mut t);
    let ioapic_id = num_cpus + 1;
    put_ioapic_entry(&mut t, ioapic_id);
    let ghost before_irqs = t@;
    assert(t@ =~= before_irqs + intsrc_entries(0, ioapic_id));
    let mut irq: u8 = 0;
    while irq < MAX_IRQ
        invariant
            irq <= MAX_IRQ,
            t@ == before_irqs + intsrc_entries(irq as nat, ioapic_id),
        decreases MAX_IRQ - irq,
    {
        put_intsrc_entry(&mut t, irq, ioapic_id);
        irq = irq + 1;
        assert(t@ =~= before_irqs + intsrc_entries(irq as nat, ioapic_id));
    }
    put_lint_entry(&mut t, 3, 0);
    put_lint_entry(&mut t, 1, 1);
    assert(t@ =~= config_table_unsummed(num_cpus));
    proof {
        lemma_table_len(num_cpus);
    }
    let cks = checksum_of(t.as_slice());
    t.set(7, cks);
    let mut r: Vec<u8> = Vec::new();
    put_mpf_unsummed(&mut r);
    assert(r@ =~= mpf_unsummed());
    proof {
        lemma_le_roundtrip();
        assert(r@.len() == 16);
    }
    let fcks = checksum_of(r.as_slice());
    r.set(10, fcks);
    put_bytes(&mut r, t.as_slice());
    r
}

proof fn lemma_cpu_entries_len(n: nat)
    ensures
        cpu_entries(n).len() == 20 * n,
    decreases n,
{
    lemma_le_roundtrip();
    if n > 0 {
        lemma_cpu_entries_len((n - 1) as nat);
    }
}

proof fn lemma_intsrc_entries_len(k: nat, apic: u8)
    ensures
        intsrc_entries(k, apic).len() == 8 * k,
    decreases k,
{
    lemma_le_roundtrip();
    if k > 0 {
        lemma_intsrc_entries_len((k - 1) as nat, apic);
    }
}

proof fn lemma_intsrc_entries_at(k: nat, apic: u8, i: nat, j: int)
    requires
        i < k <= 256,
        0 <= j < 8,
    ensures
        intsrc_entries(k, apic)[8 * i + j] == intsrc_entry(i as u8, apic)[j],
    decreases k,
{
    lemma_le_roundtrip();
    lemma_intsrc_entries_len((k - 1) as nat, apic);
    if i < k - 1 {
        lemma_intsrc_entries_at((k - 1) as nat, apic, i, j);
    }
}

/// In the MP configuration table for `n` processors, the IOAPIC entry (type 2) carries id
/// `n + 1`, and the interrupt-source entry for ISA IRQ `i` (type 3, vectored interrupt from
/// bus 0) routes source IRQ `i` to pin `i` of that IOAPIC.
pub proof fn law_isa_irqs_routed_to_matching_pins(n: u8, i: u8)
    requires
        n < 255,
        i < 24,
    ensures
        ({
            let t = config_table(n);
            let io = 44 + 20 * n + 8;
            let e = 44 + 20 * n + 16 + 8 * i;
            &&& t[io] == 2 && t[io + 1] == n + 1
            &&& t[e] == 3 && t[e + 1] == 0 && t[e + 4] == 0
            &&& t[e + 5] == i
            &&& t[e + 6] == n + 1
            &&& t[e + 7] == i
        }),
{
    lemma_le_roundtrip();
    lemma_table_len(n);
    lemma_cpu_entries_len(n as nat);
    lemma_intsrc_entries_len(MAX_IRQ as nat, (n + 1) as u8);
    let apic = (n + 1) as u8;
    let h = mpc_header(n, 0);
    let a = h + cpu_entries(n as nat);
    let b = a + bus_entry();
    let c = b + ioapic_entry(apic);
    let d = c + intsrc_entries(MAX_IRQ as nat, apic);
    assert(h.len() == 44);
    assert(c.len() == 44 + 20 * n + 16);
    let io = 44 + 20 * n + 8;
    assert(c[io] == ioapic_entry(apic)[0]);
    assert(c[io + 1] == ioapic_entry(apic)[1]);
    let e = 44 + 20 * n + 16 + 8 * i;
    assert forall|j: int| 0 <= j < 8 implies d[e + j] == #[trigger] intsrc_entry(i, apic)[j] by {
        lemma_intsrc_entries_at(MAX_IRQ as nat, apic, i as nat, j);
    }
    let ie = intsrc_entry(i, apic);
    assert(ie[0] == 3 && ie[1] == 0 && ie[4] == 0 && ie[5] == i && ie[6] == apic && ie[7] == i);
    assert(config_table_unsummed(n) == d + lint_entry(3, 0) + lint_entry(1, 1));
}

proof fn lemma_table_len(n: u8)
    requires
        n < 255,
    ensures
        config_table_unsummed(n).len() == config_table_len(n as nat),
        config_table_unsummed(n).len() > 7,
        config_table_unsummed(n)[7] == 0,
{
    lemma_le_roundtrip();
    lemma_cpu_entries_len(n as nat);
    lemma_intsrc_entries_len(MAX_IRQ as nat, (n + 1) as u8);
    let h = mpc_header(n, 0);
    assert(h.len() == 44);
    assert(h[7] == 0);
}

proof fn lemma_checksum_zeroes(s: Seq<u8>, i: int)
    requires
        0 <= i < s.len(),
        s[i] == 0,
    ensures
        byte_sum(s.update(i, checksum_for(byte_sum(s)))) % 256 == 0,
{
    lemma_byte_sum_update(s, i, checksum_for(byte_sum(s)));
    let t = byte_sum(s) as int;
    assert((t + (256 - t % 256) % 256) % 256 == 0) by (nonlinear_arith)
        requires t >= 0;
}

/// Both MP structures are checksummed: the bytes of the floating pointer structure, and
/// those of the configuration table, each add up to 0 modulo 256.
pub proof fn law_mptable_checksums(n: u8)
    requires
        n < 255,
    ensures
        mpf_bytes().len() == MPF_SIZE,
        byte_sum(mpf_bytes()) % 256 == 0,
        config_table(n).len() == config_table_len(n as nat),
        byte_sum(config_table(n)) % 256 == 0,
{
    lemma_le_roundtrip();
    lemma_table_len(n);
    assert(mpf_unsummed().len() == 16);
    assert(mpf_unsummed()[10] == 0);
    lemma_checksum_zeroes(mpf_unsummed(), 10);
    lemma_checksum_zeroes(config_table_unsummed(n), 7);
}


/// e820 type of usable RAM.
pub const E820_RAM: u32 = 1;
/// e820 type of reserved memory.
pub const E820_RESERVED: u32 = 2;
/// Highest address below 4 GiB given to RAM (the rest is the PCI hole).
pub const MEM_32BIT_GAP_START: u64 = 0xc000_0000;

/// One entry of the e820 memory map.
#[derive(Clone, Copy, Debug, PartialEq, Eq, Structural)]
pub struct E820Entry {
    pub addr: u64,
    pub size: u64,
    pub type_: u32,
}

/// The e820 map for `memory_size` bytes of RAM: conventional memory up to the MP table,
/// the MP table reserved, the BIOS area reserved, and RAM from 1 MiB up to the memory size
/// or the 32-bit gap, whichever is lower.
pub open spec fn e820_spec(memory_size: u64) -> Seq<E820Entry> {
    let top = if memory_size < MEM_32BIT_GAP_START { memory_size } else { MEM_32BIT_GAP_START };
    seq![
        E820Entry { addr: 0, size: 0x9fc00, type_: E820_RAM },
        E820Entry { addr: 0x9fc00, size: 0x400, type_: E820_RESERVED },
        E820Entry { addr: 0xe8000, size: 0x18000, type_: E820_RESERVED },
        E820Entry { addr: HIGH_MEM_START, size: (top - HIGH_MEM_START) as u64, type_: E820_RAM },
    ]
}

/// The e820 map for a guest with `memory_size` bytes of RAM (at least 1 MiB).
pub fn e820_map(memory_size: u64) -> (r: Vec<E820Entry>)
    requires
        memory_size >= HIGH_MEM_START,
    ensures
        r@ == e820_spec(memory_size),
{
    let top = if memory_size < MEM_32BIT_GAP_START { memory_size } else { MEM_32BIT_GAP_START };
    let mut r: Vec<E820Entry> = Vec::new();
    r.push(E820Entry { addr: 0, size: 0x9fc00, type_: E820_RAM });
    r.push(E820Entry { addr: 0x9fc00, size: 0x400, type_: E820_RESERVED });
    r.push(E820Entry { addr: 0xe8000, size: 0x18000, type_: E820_RESERVED });
    r.push(E820Entry { addr: HIGH_MEM_START, size: top - HIGH_MEM_START, type_: E820_RAM });
    assert(r@ =~= e820_spec(memory_size));
    r
}

/// The e820 regions are in ascending order and do not overlap, the MP tables start in
/// the reserved region, and no RAM region reaches the 32-bit gap or passes the memory size.
pub proof fn law_e820_layout(memory_size: u64)
    requires
        memory_size >= HIGH_MEM_START,
    ensures
        ({
            let m = e820_spec(memory_size);
            &&& m.len() == 4
            &&& m[0].addr + m[0].size <= m[1].addr
            &&& m[1].addr + m[1].size <= m[2].addr
            &&& m[2].addr + m[2].size <= m[3].addr
            &&& m[1].type_ == E820_RESERVED && m[1].addr == MPTABLE_START
            &&& m[0].type_ == E820_RAM && m[3].type_ == E820_RAM
            &&& m[3].addr + m[3].size <= MEM_32BIT_GAP_START
            &&& m[3].addr + m[3].size <= memory_size
        }),
{
}

/// For up to 37 processors the MP tables fit in the reserved region at `MPTABLE_START`
/// (with more they run past it, into the legacy video area that the map leaves out).
pub proof fn law_mptable_fits_reserved(n: u8)
    requires
        n <= 37,
    ensures
        MPTABLE_START + MPF_SIZE + config_table_len(n as nat) <= 0x9fc00 + 0x400,
{
}

/// The bytes placed at `CMDLINE_OFFSET`: the command line and a terminating NUL.
pub fn cmdline_bytes(cmdline: &str) -> (r: Vec<u8>)
    ensures
        r@ == cmdline.spec_bytes().push(0u8),
{
    let mut r = vstd::slice::slice_to_vec(cmdline.as_bytes());
    r.push(0);
    r
}

/// The boot-protocol header fields the loader sets itself.
#[derive(Clone, Copy, Debug, PartialEq, Eq)]
pub struct BootHeaderFields {
    pub type_of_loader: u8,
    pub cmd_line_ptr: u32,
    pub cmdline_size: u32,
    /// Initrd address and size, set only when there is an initrd.
    pub ramdisk: Option<(u32, u32)>,
}

/// The header fields for a command line of `cmdline_len` bytes and an initrd of
/// `initrd_size` bytes at `initrd_addr` (none when the size is 0); values wider than 32
/// bits are cut to their low 32 bits, as the header holds.
pub fn boot_header_fields(cmdline_len: usize, initrd_addr: u64, initrd_size: u64) -> (r: BootHeaderFields)
    ensures
        r.type_of_loader == 0xff,
        r.cmd_line_ptr == CMDLINE_OFFSET as u32,
        r.cmdline_size == cmdline_len as u32,
        r.ramdisk == (if initrd_size > 0 { Some((initrd_addr as u32, initrd_size as u32)) } else { None }),
{
    BootHeaderFields {
        type_of_loader: 0xff,
        cmd_line_ptr: CMDLINE_OFFSET as u32,
        cmdline_size: cmdline_len as u32,
        ramdisk: if initrd_size > 0 { Some((initrd_addr as u32, initrd_size as u32)) } else { None },
    }
}

/// Size of a large page (2 MiB).
pub const LARGE_PAGE_SIZE: u64 = 0x200000;

/// The 64-bit values to write for the identity page tables, with their addresses: the
/// PML4 entry, the PDPT entry, then 512 directory entries mapping the first GiB with
/// 2 MiB pages (present, writable, large).
pub open spec fn page_table_writes_spec() -> Seq<(u64, u64)> {
    seq![(PML4_START, PDPTE_START | 0x3), (PDPTE_START, PDE_START | 0x3)]
        + Seq::new(512, |i: int| ((PDE_START + 8 * i) as u64, ((i * LARGE_PAGE_SIZE) as u64) | 0x83))
}

/// The writes that build the identity page tables.
pub fn page_table_writes() -> (r: Vec<(u64, u64)>)
    ensures
        r@ == page_table_writes_spec(),
{
    let mut r: Vec<(u64, u64)> = Vec::new();
    r.push((PML4_START, PDPTE_START | 0x3));
    r.push((PDPTE_START, PDE_START | 0x3));
    let mut i: u64 = 0;
    while i < 512
        invariant
            i <= 512,
            r@ == seq![(PML4_START, PDPTE_START | 0x3), (PDPTE_START, PDE_START | 0x3)]
                + Seq::new(i as nat, |j: int| ((PDE_START + 8 * j) as u64, ((j * LARGE_PAGE_SIZE) as u64) | 0x83)),
        decreases 512 - i,
    {
        let entry = (i << 21) | 0x83;
        assert(i << 21 == i * 0x200000) by (bit_vector)
            requires
                i < 512;
        r.push((PDE_START + i * 8, entry));
        i = i + 1;
        assert(r@ =~= seq![(PML4_START, PDPTE_START | 0x3), (PDPTE_START, PDE_START | 0x3)]
                + Seq::new(i as nat, |j: int| ((PDE_START + 8 * j) as u64, ((j * LARGE_PAGE_SIZE) as u64) | 0x83)));
    }
    r
}

/// The GDT: null, unused, 64-bit code and data segments, each at
/// `BOOT_GDT_OFFSET + 8 * index`.
pub open spec fn gdt_spec() -> Seq<u64> {
    seq![0u64, 0u64, 0x00af_9a00_0000_ffffu64, 0x00cf_9200_0000_ffffu64]
}

/// The GDT entries in order.
pub fn gdt_entries() -> (r: Vec<u64>)
    ensures
        r@ == gdt_spec(),
{
    let mut r: Vec<u64> = Vec::new();
    r.push(0);
    r.push(0);
    r.push(0x00af_9a00_0000_ffff);
    r.push(0x00cf_9200_0000_ffff);
    assert(r@ =~= gdt_spec());
    r
}

/// The general registers the boot CPU starts with (the others are 0).
#[derive(Clone, Copy, Debug, PartialEq, Eq, Structural)]
pub struct BootRegs {
    pub rflags: u64,
    pub rip: u64,
    pub rsp: u64,
    pub rbp: u64,
    pub rsi: u64,
}

/// Registers for entering the kernel at `kernel_entry` with `boot_params_addr` in rsi.
pub fn boot_regs(kernel_entry: u64, boot_params_addr: u64) -> (r: BootRegs)
    ensures
        r == (BootRegs { rflags: 0x2, rip: kernel_entry, rsp: BOOT_STACK_POINTER, rbp: BOOT_STACK_POINTER, rsi: boot_params_addr }),
{
    BootRegs { rflags: 0x2, rip: kernel_entry, rsp: BOOT_STACK_POINTER, rbp: BOOT_STACK_POINTER, rsi: boot_params_addr }
}

/// A segment descriptor as the CPU state holds it.
#[derive(Clone, Copy, Debug, PartialEq, Eq, Structural)]
pub struct Segment {
    pub base: u64,
    pub limit: u32,
    pub selector: u16,
    pub type_: u8,
    pub present: u8,
    pub dpl: u8,
    pub db: u8,
    pub s: u8,
    pub l: u8,
    pub g: u8,
}

/// The special registers for 64-bit mode with the identity page tables and the boot GDT.
#[derive(Clone, Copy, Debug, PartialEq, Eq, Structural)]
pub struct SpecialRegs {
    pub cs: Segment,
    /// Used for ds, es, fs, gs and ss.
    pub data: Segment,
    pub cr0: u64,
    pub cr3: u64,
    pub cr4: u64,
    pub efer: u64,
    pub gdt_base: u64,
    pub gdt_limit: u16,
    pub idt_base: u64,
    pub idt_limit: u16,
}

/// The 64-bit code segment (selector 0x10, execute/read, long mode).
pub open spec fn code_segment() -> Segment {
    Segment { base: 0, limit: 0xffff_ffff, selector: 0x10, type_: 0xb, present: 1, dpl: 0, db: 0, s: 1, l: 1, g: 1 }
}

/// The data segment (selector 0x18, read/write).
pub open spec fn data_segment() -> Segment {
    Segment { base: 0, limit: 0xffff_ffff, selector: 0x18, type_: 0x3, present: 1, dpl: 0, db: 1, s: 1, l: 0, g: 1 }
}

/// Special registers: paging and protection on, PAE, long mode, the boot GDT and IDT.
pub fn long_mode_sregs() -> (r: SpecialRegs)
    ensures
        r.cs == code_segment(),
        r.data == data_segment(),
        r.cr0 == 0x8005_0033,
        r.cr3 == PML4_START,
        r.cr4 == 0x668,
        r.efer == 0xd01,
        r.gdt_base == BOOT_GDT_OFFSET && r.gdt_limit == 0x1f,
        r.idt_base == BOOT_IDT_OFFSET && r.idt_limit == 0xffff,
{
    SpecialRegs {
        cs: Segment { base: 0, limit: 0xffff_ffff, selector: 0x10, type_: 0xb, present: 1, dpl: 0, db: 0, s: 1, l: 1, g: 1 },
        data: Segment { base: 0, limit: 0xffff_ffff, selector: 0x18, type_: 0x3, present: 1, dpl: 0, db: 1, s: 1, l: 0, g: 1 },
        cr0: 0x8005_0033,
        cr3: PML4_START,
        cr4: 0x668,
        efer: 0xd01,
        gdt_base: BOOT_GDT_OFFSET,
        gdt_limit: 0x1f,
        idt_base: BOOT_IDT_OFFSET,
        idt_limit: 0xffff,
    }
}

/// The segment selectors index the GDT: the code selector names the 64-bit code
/// descriptor and the data selector the data descriptor, and the GDT limit covers both.
pub proof fn law_selectors_match_gdt()
    ensures
        gdt_spec()[(code_segment().selector / 8) as int] == 0x00af_9a00_0000_ffffu64,
        gdt_spec()[(data_segment().selector / 8) as int] == 0x00cf_9200_0000_ffffu64,
        8 * gdt_spec().len() == 0x1f + 1,
{
}

} // verus!
