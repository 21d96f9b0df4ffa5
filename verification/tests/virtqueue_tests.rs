use capsa::virtio::{VirtioQueueState, MAX_DESCRIPTOR_LEN};
use capsa::virtqueue::{
    complete_requests, read_chain, take_requests, walk_chain, write_chain, GuestRam,
};

fn put(mem: &mut [u8], addr: usize, bytes: &[u8]) {
    mem[addr..addr + bytes.len()].copy_from_slice(bytes);
}

fn desc(mem: &mut [u8], table: usize, idx: usize, addr: u64, len: u32, flags: u16, next: u16) {
    let a = table + idx * 16;
    put(mem, a, &addr.to_le_bytes());
    put(mem, a + 8, &len.to_le_bytes());
    put(mem, a + 12, &flags.to_le_bytes());
    put(mem, a + 14, &next.to_le_bytes());
}

fn queue() -> VirtioQueueState {
    let mut q = VirtioQueueState::new(8);
    q.ready = true;
    q.desc_table = 0x100;
    q.avail_ring = 0x200;
    q.used_ring = 0x300;
    q
}

fn two_descriptor_request() -> Vec<u8> {
    let mut m = vec![0u8; 0x1000];
    desc(&mut m, 0x100, 0, 0x400, 4, 1, 1);
    desc(&mut m, 0x100, 1, 0x500, 8, 2, 0);
    put(&mut m, 0x400, &[9, 8, 7, 6]);
    put(&mut m, 0x202, &1u16.to_le_bytes());
    put(&mut m, 0x204, &0u16.to_le_bytes());
    m
}

#[test]
fn request_is_taken_and_reply_returned() {
    let mut mem = GuestRam::new(two_descriptor_request());
    let mut q = queue();
    let reqs = take_requests(&mem, &mut q);
    assert_eq!(reqs.len(), 1);
    assert_eq!(reqs[0].0, 0);
    assert_eq!(reqs[0].1, vec![9, 8, 7, 6]);
    assert_eq!(q.next_avail, 1);
    assert!(take_requests(&mem, &mut q).is_empty());

    complete_requests(&mut mem, &mut q, &[(0u16, vec![1u8, 2, 3])]);
    let b = mem.as_bytes();
    assert_eq!(&b[0x500..0x504], &[1, 2, 3, 0]);
    assert_eq!(u32::from_le_bytes(b[0x304..0x308].try_into().unwrap()), 0);
    assert_eq!(u32::from_le_bytes(b[0x308..0x30c].try_into().unwrap()), 3);
    assert_eq!(u16::from_le_bytes(b[0x302..0x304].try_into().unwrap()), 1);
    assert_eq!(q.next_used, 1);
}

#[test]
fn chain_longer_than_the_queue_is_followed_to_its_end() {
    let mut m = vec![0u8; 0x1000];
    desc(&mut m, 0x100, 0, 0x400, 2, 1, 1);
    desc(&mut m, 0x100, 1, 0x480, 3, 1, 2);
    desc(&mut m, 0x100, 2, 0x500, 4, 2, 0);
    put(&mut m, 0x400, &[1, 2]);
    put(&mut m, 0x480, &[3, 4, 5]);
    put(&mut m, 0x202, &1u16.to_le_bytes());
    put(&mut m, 0x204, &0u16.to_le_bytes());
    let mut mem = GuestRam::new(m);
    let mut q = VirtioQueueState::new(1);
    q.ready = true;
    q.desc_table = 0x100;
    q.avail_ring = 0x200;
    q.used_ring = 0x300;
    assert_eq!(walk_chain(&mem, 0x100, 0).len(), 3);
    let reqs = take_requests(&mem, &mut q);
    assert_eq!(reqs, vec![(0u16, vec![1u8, 2, 3, 4, 5])]);
    complete_requests(&mut mem, &mut q, &[(0u16, vec![9u8, 8])]);
    let b = mem.as_bytes();
    assert_eq!(&b[0x500..0x504], &[9, 8, 0, 0]);
    assert_eq!(u32::from_le_bytes(b[0x308..0x30c].try_into().unwrap()), 2);
}

#[test]
fn reply_fills_writable_buffers_in_order_and_buffers_outside_memory_are_skipped() {
    let mut m = vec![0u8; 0x1000];
    desc(&mut m, 0x100, 0, 0x600, 2, 3, 1);
    desc(&mut m, 0x100, 1, 0x700, 8, 2, 0);
    desc(&mut m, 0x100, 2, 0x5000, 8, 0, 0);
    let mut mem = GuestRam::new(m);
    write_chain(&mut mem, 0x100, 0, &[1, 2, 3, 4, 5]);
    let b = mem.as_bytes();
    assert_eq!(&b[0x600..0x602], &[1, 2]);
    assert_eq!(&b[0x700..0x704], &[3, 4, 5, 0]);
    assert_eq!(read_chain(&mem, 0x100, 2), Vec::<u8>::new());
}

#[test]
fn available_index_wraps() {
    let mut m = vec![0u8; 0x1000];
    desc(&mut m, 0x100, 3, 0x400, 1, 0, 0);
    put(&mut m, 0x400, &[42]);
    put(&mut m, 0x202, &0u16.to_le_bytes());
    // position 65535 uses slot 65535 % 8 = 7.
    put(&mut m, 0x204 + 14, &3u16.to_le_bytes());
    let mem = GuestRam::new(m);
    let mut q = queue();
    q.next_avail = u16::MAX;
    let reqs = take_requests(&mem, &mut q);
    assert_eq!(reqs.len(), 1);
    assert_eq!(reqs[0], (3, vec![42]));
    assert_eq!(q.next_avail, 0);
}

const VIRTQ_DESC_F_NEXT: u16 = 1;
const VIRTQ_DESC_F_WRITE: u16 = 2;

fn test_memory() -> Vec<u8> {
    vec![0u8; 0x10000]
}

fn read_at(mem: &GuestRam, addr: usize, n: usize) -> Vec<u8> {
    mem.as_bytes()[addr..addr + n].to_vec()
}

#[test]
fn read_single_descriptor_chain() {
    let mut m = test_memory();
    let test_data = b"Hello, virtio!";
    put(&mut m, 0x2000, test_data);
    desc(&mut m, 0x1000, 0, 0x2000, test_data.len() as u32, 0, 0);
    let mem = GuestRam::new(m);
    assert_eq!(read_chain(&mem, 0x1000, 0), test_data.to_vec());
}

#[test]
fn read_chained_descriptors() {
    let mut m = test_memory();
    let data1 = b"First ";
    let data2 = b"Second";
    put(&mut m, 0x2000, data1);
    put(&mut m, 0x3000, data2);
    desc(&mut m, 0x1000, 0, 0x2000, data1.len() as u32, VIRTQ_DESC_F_NEXT, 1);
    desc(&mut m, 0x1000, 1, 0x3000, data2.len() as u32, 0, 0);
    let mem = GuestRam::new(m);
    assert_eq!(read_chain(&mem, 0x1000, 0), b"First Second".to_vec());
}

#[test]
fn read_skips_write_only_descriptors() {
    let mut m = test_memory();
    let read_data = b"Readable";
    let write_data = b"Writable";
    put(&mut m, 0x2000, read_data);
    put(&mut m, 0x3000, write_data);
    desc(&mut m, 0x1000, 0, 0x2000, read_data.len() as u32, VIRTQ_DESC_F_NEXT, 1);
    desc(&mut m, 0x1000, 1, 0x3000, write_data.len() as u32, VIRTQ_DESC_F_WRITE, 0);
    let mem = GuestRam::new(m);
    assert_eq!(read_chain(&mem, 0x1000, 0), b"Readable".to_vec());
}

#[test]
fn write_to_descriptor_chain() {
    let mut m = test_memory();
    desc(&mut m, 0x1000, 0, 0x2000, 100, VIRTQ_DESC_F_WRITE, 0);
    let mut mem = GuestRam::new(m);
    let response = b"Response data";
    write_chain(&mut mem, 0x1000, 0, response);
    assert_eq!(read_at(&mem, 0x2000, response.len()), response.to_vec());
}

#[test]
fn write_skips_read_only_descriptors() {
    let mut m = test_memory();
    put(&mut m, 0x2000, &[0u8; 20]);
    put(&mut m, 0x3000, &[0u8; 20]);
    desc(&mut m, 0x1000, 0, 0x2000, 10, VIRTQ_DESC_F_NEXT, 1);
    desc(&mut m, 0x1000, 1, 0x3000, 10, VIRTQ_DESC_F_WRITE, 0);
    let mut mem = GuestRam::new(m);
    let response = b"Data";
    write_chain(&mut mem, 0x1000, 0, response);
    assert_eq!(read_at(&mem, 0x2000, 10), vec![0u8; 10]);
    assert_eq!(read_at(&mem, 0x3000, response.len()), response.to_vec());
}

#[test]
fn write_spans_multiple_descriptors() {
    let mut m = test_memory();
    desc(&mut m, 0x1000, 0, 0x2000, 4, VIRTQ_DESC_F_WRITE | VIRTQ_DESC_F_NEXT, 1);
    desc(&mut m, 0x1000, 1, 0x3000, 4, VIRTQ_DESC_F_WRITE, 0);
    let mut mem = GuestRam::new(m);
    let response = b"ABCDEFGH";
    write_chain(&mut mem, 0x1000, 0, response);
    assert_eq!(read_at(&mem, 0x2000, 4), b"ABCD".to_vec());
    assert_eq!(read_at(&mem, 0x3000, 4), b"EFGH".to_vec());
}

#[test]
fn descriptor_length_capped() {
    let mut m = test_memory();
    put(&mut m, 0x2000, b"Short data");
    desc(&mut m, 0x1000, 0, 0x2000, u32::MAX, 0, 0);
    let mem = GuestRam::new(m);
    let result = read_chain(&mem, 0x1000, 0);
    assert!(result.len() <= MAX_DESCRIPTOR_LEN as usize);
}
