use capsa::cli::{console_end_action, console_input, ConsoleEnd, ConsoleInput, CONSOLE_ESCAPE};
use capsa::handle::{
    dir_listing, entry_type, readdir_reply, DirEntry, EntryKind, Handle, HandleKind, HandleTable, DT_DIR,
    DT_LNK, DT_REG, DT_UNKNOWN, EBADF, ENOTDIR, EROFS, O_APPEND, O_CREAT, O_RDONLY, O_RDWR, O_TRUNC,
    O_WRONLY,
};

fn file_handle(ino: u64) -> Handle<u32> {
    Handle { kind: HandleKind::File(7), ino, flags: 0 }
}

#[test]
fn handles_are_numbered_from_one() {
    let mut table: HandleTable<u32> = HandleTable::new();
    assert_eq!(table.insert(file_handle(5)), Ok(1));
    assert_eq!(table.insert(file_handle(6)), Ok(2));
    assert_eq!(table.len(), 2);
    assert_eq!(table.get(2).unwrap().ino, 6);
}

#[test]
fn release_hands_back_the_handle_and_numbers_are_not_reused() {
    let mut table: HandleTable<u32> = HandleTable::new();
    let fh = table.insert(file_handle(5)).unwrap();
    let h = table.release(fh).unwrap();
    assert_eq!(h.ino, 5);
    assert!(table.get(fh).is_none());
    assert!(table.release(fh).is_none());
    assert_eq!(table.insert(file_handle(9)), Ok(2));
}

#[test]
fn open_access_modes() {
    let table: HandleTable<u32> = HandleTable::new();
    let ro = table.open_access(O_RDONLY, false).unwrap();
    assert!(ro.read && !ro.write);
    let wo = table.open_access(O_WRONLY | O_APPEND, false).unwrap();
    assert!(!wo.read && wo.write && wo.append);
    let rw = table.open_access(O_RDWR | O_TRUNC, false).unwrap();
    assert!(rw.read && rw.write && rw.truncate);
    assert_eq!(rw.custom_flags, O_TRUNC);
}

#[test]
fn open_for_writing_on_read_only_share_is_erofs() {
    let table: HandleTable<u32> = HandleTable::new();
    assert_eq!(table.open_access(O_WRONLY, true), Err(EROFS));
    assert_eq!(table.open_access(O_RDWR, true), Err(EROFS));
    assert!(table.open_access(O_RDONLY, true).is_ok());
}

#[test]
fn create_access_writes() {
    let table: HandleTable<u32> = HandleTable::new();
    let a = table.create_access(O_RDONLY | O_CREAT).unwrap();
    assert!(a.read && a.write && !a.append);
}

#[test]
fn read_dir_errors_and_offsets() {
    let mut table: HandleTable<u32> = HandleTable::new();
    assert_eq!(table.read_dir(1, 0).err(), Some(EBADF));
    let f = table.insert(file_handle(2)).unwrap();
    assert_eq!(table.read_dir(f, 0).err(), Some(ENOTDIR));
    let listing = dir_listing(3, vec![("a".to_string(), EntryKind::File)]);
    let d = table
        .insert(Handle { kind: HandleKind::Dir(listing), ino: 3, flags: 0 })
        .unwrap();
    assert_eq!(table.read_dir(d, 0).unwrap().len(), 3);
    let rest = table.read_dir(d, 2).unwrap();
    assert_eq!(rest.len(), 1);
    assert_eq!(rest[0].name, "a");
    assert_eq!(table.read_dir(d, 9).unwrap().len(), 0);
}

#[test]
fn listing_starts_with_dot_entries() {
    let listing = dir_listing(
        7,
        vec![("x".to_string(), EntryKind::Dir), ("y".to_string(), EntryKind::Symlink)],
    );
    assert_eq!(listing.len(), 4);
    assert_eq!((listing[0].ino, listing[0].name.as_str(), listing[0].typ), (7, ".", DT_DIR));
    assert_eq!((listing[1].ino, listing[1].name.as_str(), listing[1].typ), (0, "..", DT_DIR));
    assert_eq!((listing[2].name.as_str(), listing[2].typ), ("x", DT_DIR));
    assert_eq!((listing[3].name.as_str(), listing[3].typ), ("y", DT_LNK));
}

#[test]
fn entry_types() {
    assert_eq!(entry_type(EntryKind::File), DT_REG);
    assert_eq!(entry_type(EntryKind::Other), DT_UNKNOWN);
}

#[test]
fn readdir_reply_layout() {
    let entries = vec![DirEntry { ino: 42, name: "abc".to_string(), typ: DT_REG }];
    let body = readdir_reply(&entries, 5, 4096);
    assert_eq!(body.len(), 32);
    assert_eq!(u64::from_le_bytes(body[0..8].try_into().unwrap()), 42);
    assert_eq!(u64::from_le_bytes(body[8..16].try_into().unwrap()), 6);
    assert_eq!(u32::from_le_bytes(body[16..20].try_into().unwrap()), 3);
    assert_eq!(u32::from_le_bytes(body[20..24].try_into().unwrap()), DT_REG);
    assert_eq!(&body[24..27], b"abc");
    assert!(body[27..32].iter().all(|b| *b == 0));
}

#[test]
fn readdir_reply_stops_at_first_entry_that_does_not_fit() {
    let entries = vec![
        DirEntry { ino: 1, name: "a".to_string(), typ: DT_REG },
        DirEntry { ino: 2, name: "a-much-longer-name".to_string(), typ: DT_REG },
        DirEntry { ino: 3, name: "b".to_string(), typ: DT_REG },
    ];
    let body = readdir_reply(&entries, 0, 40);
    assert_eq!(body.len(), 32);
    assert_eq!(readdir_reply(&entries, 0, 10).len(), 0);
}

#[test]
fn console_escape_detaches() {
    assert_eq!(console_input(CONSOLE_ESCAPE), ConsoleInput::Detach);
    assert_eq!(console_input(b'a'), ConsoleInput::Forward(b'a'));
}

#[test]
fn console_end_kills_unless_vm_exited() {
    assert_eq!(console_end_action(ConsoleEnd::VmExited), (false, Some("\r\nVM exited.\r")));
    assert_eq!(console_end_action(ConsoleEnd::Detached), (true, Some("\r\nStopping VM...\r")));
    assert_eq!(console_end_action(ConsoleEnd::InputClosed), (true, None));
}
