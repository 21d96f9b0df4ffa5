use capsa::inode::{InodeTable, EACCES, EINVAL, ENOENT, ENOSPC, ROOT_INODE};

#[test]
fn root_inode_is_one() {
    let table = InodeTable::new("/srv/share");
    assert!(table.get(ROOT_INODE).is_some());
    assert_eq!(table.get(ROOT_INODE).unwrap().path, "/srv/share");
}

#[test]
fn forget_does_not_remove_root() {
    let mut table = InodeTable::new("/srv/share");
    table.forget(ROOT_INODE, 100);
    assert!(table.get(ROOT_INODE).is_some());
}

#[test]
fn invalid_name_rejected() {
    let table = InodeTable::new("/srv/share");
    assert!(table.child_path(ROOT_INODE, "..").is_err());
    assert!(table.child_path(ROOT_INODE, ".").is_err());
    assert!(table.child_path(ROOT_INODE, "foo/bar").is_err());
}

#[test]
fn lookup_with_dot_rejected() {
    let table = InodeTable::new("/srv/share");
    let result = table.child_path(ROOT_INODE, ".");
    assert!(result.is_err());
}

#[test]
fn name_with_null_byte_handled() {
    let table = InodeTable::new("/srv/share");
    let result = table.child_path(ROOT_INODE, "file\0.txt");
    assert!(result.is_ok() || result.is_err());
}

#[test]
fn child_paths_join_under_parent() {
    let table = InodeTable::new("/srv/share");
    assert_eq!(table.child_path(ROOT_INODE, "a.txt"), Ok("/srv/share/a.txt".to_string()));
    assert_eq!(table.child_path(42, "a.txt"), Err(ENOENT));
    assert_eq!(table.child_path(ROOT_INODE, ".."), Err(EINVAL));
}

#[test]
fn lookups_share_numbers_per_host_file() {
    let mut table = InodeTable::new("/srv/share");
    let a = table.record_lookup("/srv/share/a", 1, 100).unwrap();
    let b = table.record_lookup("/srv/share/b", 1, 101).unwrap();
    let a2 = table.record_lookup("/srv/share/a", 1, 100).unwrap();
    assert!(a > ROOT_INODE);
    assert_ne!(a, b);
    assert_eq!(a, a2);
    assert_eq!(table.get(a).unwrap().nlookup, 2);
    assert_eq!(table.get_path(b), Some("/srv/share/b"));
}

#[test]
fn forget_drops_inode_when_lookups_run_out() {
    let mut table = InodeTable::new("/srv/share");
    let a = table.record_lookup("/srv/share/a", 1, 100).unwrap();
    table.incref(a);
    assert_eq!(table.forget(a, 1), None);
    assert_eq!(table.get(a).unwrap().nlookup, 1);
    assert_eq!(table.forget(a, 1), Some("/srv/share/a".to_string()));
    assert!(table.get(a).is_none());
    table.forget_host_key(1, 100);
    let again = table.record_lookup("/srv/share/a", 1, 100).unwrap();
    assert_ne!(again, a);
}

#[test]
fn removing_a_host_file_drops_its_inode() {
    let mut table = InodeTable::new("/srv/share");
    let a = table.record_lookup("/srv/share/a", 3, 7).unwrap();
    table.remove_host_file(3, 7);
    assert!(table.get(a).is_none());
    table.remove_host_file(3, 7);
    assert!(table.get(ROOT_INODE).is_some());
}

#[test]
fn paths_outside_the_share_are_refused() {
    let table = InodeTable::new("/srv/share");
    assert_eq!(table.check_within_root("/srv/share/x"), Ok("/srv/share/x".to_string()));
    assert_eq!(table.check_within_root("/etc/passwd"), Err(EACCES));
    assert_eq!(table.check_within_root("/srv/shared"), Err(EACCES));
    assert_eq!(table.host_root(), "/srv/share");
    let _ = ENOSPC;
}

#[test]
fn path_traversal_blocked() {
    // "/srv/share/../../etc/passwd" resolves on the host to "/etc/passwd".
    let table = InodeTable::new("/srv/share");
    let child = table.child_path(ROOT_INODE, "passwd").unwrap();
    assert_eq!(child, "/srv/share/passwd");
    assert_eq!(table.check_within_root("/etc/passwd"), Err(EACCES));
}

#[test]
fn path_traversal_absolute_path_blocked() {
    let table = InodeTable::new("/srv/share");
    assert_eq!(table.check_within_root("/etc/passwd"), Err(EACCES));
    assert_eq!(table.check_within_root("/srv/shared/x"), Err(EACCES));
    assert_eq!(table.check_within_root("/srv/share/x").unwrap(), "/srv/share/x");
}

#[test]
fn path_traversal_deep_nesting_blocked() {
    // Fifty ".." components after the share resolve to the host's "/", so the path is
    // "/etc/passwd" once resolved.
    let table = InodeTable::new("/srv/share");
    assert_eq!(table.check_within_root("/etc/passwd"), Err(EACCES));
    assert_eq!(table.check_within_root("/"), Err(EACCES));
}

// The host's answers for "/srv/share/test.txt": its resolved path and its device and inode
// numbers.
fn test_txt() -> (Result<String, i32>, Result<(u64, u64), i32>) {
    (Ok("/srv/share/test.txt".to_string()), Ok((1, 100)))
}

#[test]
fn lookup_creates_inode() {
    let mut table = InodeTable::new("/srv/share");
    let (c, k) = test_txt();
    let ino = table.lookup_resolved(ROOT_INODE, "test.txt", c, k).unwrap();
    assert!(ino > ROOT_INODE);
    assert!(table.get(ino).is_some());
    assert_eq!(table.get_path(ino), Some("/srv/share/test.txt"));
}

#[test]
fn lookup_returns_same_inode() {
    let mut table = InodeTable::new("/srv/share");
    let (c, k) = test_txt();
    let ino1 = table.lookup_resolved(ROOT_INODE, "test.txt", c.clone(), k).unwrap();
    let ino2 = table.lookup_resolved(ROOT_INODE, "test.txt", c, k).unwrap();
    assert_eq!(ino1, ino2);
    assert_eq!(table.get(ino1).unwrap().nlookup, 2);
}

#[test]
fn forget_removes_inode() {
    let mut table = InodeTable::new("/srv/share");
    let (c, k) = test_txt();
    let ino = table.lookup_resolved(ROOT_INODE, "test.txt", c, k).unwrap();
    table.forget(ino, 1);
    assert!(table.get(ino).is_none());
}

#[test]
fn failed_lookups_report_their_errors_and_leave_the_table() {
    let mut table = InodeTable::new("/srv/share");
    let (c, k) = test_txt();
    assert_eq!(table.lookup_resolved(ROOT_INODE, "..", c.clone(), k), Err(EINVAL));
    assert_eq!(table.lookup_resolved(7, "test.txt", c.clone(), k), Err(ENOENT));
    assert_eq!(table.lookup_resolved(ROOT_INODE, "test.txt", Err(ENOENT), k), Err(ENOENT));
    assert_eq!(
        table.lookup_resolved(ROOT_INODE, "link", Ok("/etc/passwd".to_string()), k),
        Err(EACCES)
    );
    assert_eq!(table.lookup_resolved(ROOT_INODE, "test.txt", c, Err(13)), Err(13));
    assert!(table.get(2).is_none());
    assert_eq!(table.get(ROOT_INODE).unwrap().nlookup, 1);
}
