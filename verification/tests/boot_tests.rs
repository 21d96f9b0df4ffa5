use capsa::boot::{
    boot_header_fields, boot_regs, cmdline_bytes, e820_map, gdt_entries, initrd_load_addr,
    long_mode_sregs, mptable_bytes, page_table_writes, E820Entry, BOOT_STACK_POINTER,
    INITRD_LOAD_ADDR, MPTABLE_START, PDE_START, PML4_START,
};

fn sum(bytes: &[u8]) -> u8 {
    bytes.iter().fold(0u8, |a, b| a.wrapping_add(*b))
}

#[test]
fn initrd_goes_to_64_mib() {
    assert_eq!(initrd_load_addr(0x1234_5678), INITRD_LOAD_ADDR);
    assert_eq!(INITRD_LOAD_ADDR, 64 * 1024 * 1024);
}

#[test]
fn mptable_checksums_and_layout() {
    let image = mptable_bytes(2);
    assert_eq!(&image[0..4], b"_MP_");
    assert_eq!(u32::from_le_bytes(image[4..8].try_into().unwrap()), (MPTABLE_START + 16) as u32);
    assert_eq!(sum(&image[0..16]), 0);
    let table = &image[16..];
    assert_eq!(&table[0..4], b"PCMP");
    let len = u16::from_le_bytes(table[4..6].try_into().unwrap()) as usize;
    assert_eq!(len, table.len());
    assert_eq!(len, 44 + 20 * 2 + 8 + 8 + 24 * 8 + 16);
    assert_eq!(sum(table), 0);
    assert_eq!(&table[8..16], b"CAPSA   ");
    assert_eq!(&table[16..28], b"KVMVM       ");
    assert_eq!(u16::from_le_bytes(table[34..36].try_into().unwrap()), 2 + 28);
    // second processor entry: not the boot processor
    assert_eq!(table[44 + 20 + 1], 1);
    assert_eq!(table[44 + 20 + 3], 1);
    assert_eq!(table[44 + 3], 3);
    // IOAPIC id follows the processors
    assert_eq!(table[44 + 40 + 8 + 1], 3);
}

#[test]
fn mptable_single_cpu() {
    let image = mptable_bytes(1);
    assert_eq!(sum(&image[16..]), 0);
    assert_eq!(image.len(), 16 + 44 + 20 + 8 + 8 + 24 * 8 + 16);
}

#[test]
fn e820_map_for_small_and_large_memory() {
    let small = e820_map(512 * 1024 * 1024);
    assert_eq!(small.len(), 4);
    assert_eq!(small[0], E820Entry { addr: 0, size: 0x9fc00, type_: 1 });
    assert_eq!(small[1], E820Entry { addr: 0x9fc00, size: 0x400, type_: 2 });
    assert_eq!(small[3], E820Entry { addr: 0x100000, size: 512 * 1024 * 1024 - 0x100000, type_: 1 });
    let large = e820_map(8 * 1024 * 1024 * 1024);
    assert_eq!(large[3].size, 0xc000_0000 - 0x100000);
}

#[test]
fn page_tables_identity_map_first_gib() {
    let writes = page_table_writes();
    assert_eq!(writes.len(), 514);
    assert_eq!(writes[0], (PML4_START, 0xa003));
    assert_eq!(writes[1], (0xa000, PDE_START | 3));
    assert_eq!(writes[2], (PDE_START, 0x83));
    assert_eq!(writes[3], (PDE_START + 8, 0x200083));
    assert_eq!(writes[513], (PDE_START + 511 * 8, (511u64 << 21) | 0x83));
}

#[test]
fn registers_and_descriptors() {
    let regs = boot_regs(0x100_0000, 0x7000);
    assert_eq!(regs.rip, 0x100_0000);
    assert_eq!(regs.rsi, 0x7000);
    assert_eq!(regs.rsp, BOOT_STACK_POINTER);
    assert_eq!(regs.rflags, 2);
    let sregs = long_mode_sregs();
    assert_eq!(sregs.cs.selector, 0x10);
    assert_eq!(sregs.data.selector, 0x18);
    assert_eq!(sregs.cr3, PML4_START);
    assert_eq!(sregs.efer, 0xd01);
    let gdt = gdt_entries();
    assert_eq!(gdt, vec![0, 0, 0x00af_9a00_0000_ffff, 0x00cf_9200_0000_ffff]);
}

#[test]
fn boot_header_and_cmdline() {
    let fields = boot_header_fields(20, 0x400_0000, 4096);
    assert_eq!(fields.type_of_loader, 0xff);
    assert_eq!(fields.cmd_line_ptr, 0x20000);
    assert_eq!(fields.cmdline_size, 20);
    assert_eq!(fields.ramdisk, Some((0x400_0000, 4096)));
    assert_eq!(boot_header_fields(20, 0x400_0000, 0).ramdisk, None);
    assert_eq!(cmdline_bytes("quiet"), b"quiet\0".to_vec());
}
