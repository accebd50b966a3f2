use dirt::entries::{
    ancestor_dirs, classify_sudo_failure, compare_entries, column_target, drives_from_mounts, link_columns, parse_ls_listing,
    prepare_entries, scroll_start, size_unit, size_unit_name, sort_entries, sudo_read_outcome,
    unreadable_outcome, DirColumn, DirEntry, DirReadOutcome, SudoReadError,
};

fn entry(name: &str, is_dir: bool, size: u64, modified: Option<(i64, u32)>) -> DirEntry {
    DirEntry {
        name: name.to_string(),
        path: format!("/d/{name}"),
        is_dir,
        is_symlink: false,
        is_executable: false,
        size,
        modified,
    }
}

fn names(es: &[DirEntry]) -> Vec<String> {
    es.iter().map(|e| e.name.clone()).collect()
}

#[test]
fn sort_by_name_puts_directories_first() {
    let es = vec![
        entry("b.txt", false, 1, None),
        entry("Zeta", true, 0, None),
        entry("a.rs", false, 1, None),
        entry("alpha", true, 0, None),
    ];
    let r = sort_entries(&es, "name");
    assert_eq!(names(&r), vec!["alpha", "Zeta", "a.rs", "b.txt"]);
    let first_file = r.iter().position(|e| !e.is_dir).unwrap();
    assert!(r[first_file..].iter().all(|e| !e.is_dir));
}

#[test]
fn sort_by_type_orders_extensions_then_names() {
    let es = vec![
        entry("z.b", false, 0, None),
        entry("a.c", false, 0, None),
        entry("m.a", false, 0, None),
        entry("noext", false, 0, None),
        entry("dir.z", true, 0, None),
    ];
    let r = sort_entries(&es, "type");
    assert_eq!(names(&r), vec!["dir.z", "noext", "m.a", "z.b", "a.c"]);
}

#[test]
fn sort_by_size_is_largest_first() {
    let es = vec![
        entry("small", false, 10, None),
        entry("big", false, 1000, None),
        entry("mid", false, 100, None),
        entry("same_b", false, 100, None),
    ];
    let r = sort_entries(&es, "size");
    assert_eq!(names(&r), vec!["big", "mid", "same_b", "small"]);
}

#[test]
fn sort_by_modified_is_latest_first_unknown_last() {
    let es = vec![
        entry("old", false, 0, Some((100, 0))),
        entry("unknown", false, 0, None),
        entry("new", false, 0, Some((200, 5))),
        entry("newer_nanos", false, 0, Some((200, 9))),
    ];
    let r = sort_entries(&es, "modified");
    assert_eq!(names(&r), vec!["newer_nanos", "new", "old", "unknown"]);
}

#[test]
fn sort_is_stable_for_equal_keys() {
    let mut a = entry("same", false, 0, None);
    a.path = "/first".to_string();
    let mut b = entry("SAME", false, 0, None);
    b.path = "/second".to_string();
    let r = sort_entries(&vec![a, b], "name");
    assert_eq!(r[0].path, "/first");
    assert_eq!(r[1].path, "/second");
}

#[test]
fn prepare_hides_dot_entries_unless_asked() {
    let raw = vec![entry(".git", true, 0, None), entry("src", true, 0, None), entry(".env", false, 0, None)];
    let shown = prepare_entries(raw, false, "name");
    assert_eq!(names(&shown), vec!["src"]);
    let raw = vec![entry(".git", true, 0, None), entry("src", true, 0, None), entry(".env", false, 0, None)];
    let all = prepare_entries(raw, true, "name");
    assert_eq!(names(&all), vec![".git", "src", ".env"]);
}

#[test]
fn ls_listing_is_parsed_into_entries() {
    let out = "total 12\n\
drwxr-xr-x  3 root root 4096 Jan  1 00:00 .\n\
drwxr-xr-x 20 root root 4096 Jan  1 00:00 ..\n\
drwx------  2 root root 4096 Jan  1 00:00 secret dir\n\
-rwxr-x---  1 root root  100 Jan  1 00:00 run.sh\n\
lrwxrwxrwx  1 root root    9 Jan  1 00:00 link -> target\n\
-rw-r--r--  1 root root    5 Jan  1 00:00 .hidden\n\
\n";
    let es = parse_ls_listing(out, "/root", false);
    assert_eq!(names(&es), vec!["secret dir", "run.sh", "link -> target"]);
    assert!(es[0].is_dir && es[0].is_executable && !es[0].is_symlink);
    assert_eq!(es[0].path, "/root/secret dir");
    assert!(!es[1].is_dir && es[1].is_executable && !es[1].is_symlink);
    assert!(es[2].is_symlink && es[2].is_executable);
    assert_eq!(es[1].size, 0);
    assert!(es[1].modified.is_none());
    let with_hidden = parse_ls_listing(out, "/root", true);
    assert_eq!(with_hidden.len(), 4);
    assert_eq!(with_hidden[3].name, ".hidden");
}

#[test]
fn sudo_failures_are_classified() {
    assert_eq!(classify_sudo_failure("sudo: a Password is required\n"), SudoReadError::PasswordRequired);
    assert_eq!(
        classify_sudo_failure("ls: cannot open directory '/x': Permission denied"),
        SudoReadError::PermissionDenied
    );
    assert_eq!(classify_sudo_failure("ls: cannot access '/x': No such file"), SudoReadError::Other);
}

#[test]
fn sudo_outcomes_mark_the_column() {
    let ok = sudo_read_outcome(Ok(vec![entry("a", false, 0, None)])).unwrap();
    assert_eq!(ok.entries.len(), 1);
    assert!(!ok.permission_denied && !ok.sudo_password_required);
    let pw = sudo_read_outcome(Err(SudoReadError::PasswordRequired)).unwrap();
    assert!(pw.entries.is_empty() && pw.permission_denied && pw.sudo_password_required);
    let denied = sudo_read_outcome(Err(SudoReadError::PermissionDenied)).unwrap();
    assert!(denied.permission_denied && !denied.sudo_password_required);
    assert!(sudo_read_outcome(Err(SudoReadError::Other)).is_none());
    let un = unreadable_outcome(true);
    assert!(un.entries.is_empty() && un.permission_denied && !un.sudo_password_required);
}

#[test]
fn column_target_is_the_directory_or_the_parent() {
    assert_eq!(column_target("/a/b", true), "/a/b");
    assert_eq!(column_target("/a/b/file.txt", false), "/a/b");
    assert_eq!(column_target("/", false), "/");
}

#[test]
fn ancestors_run_from_the_root_down() {
    assert_eq!(ancestor_dirs("/a/b/c"), vec!["/", "/a", "/a/b", "/a/b/c"]);
    assert_eq!(ancestor_dirs("/"), vec!["/"]);
    assert_eq!(ancestor_dirs("rel/x"), vec!["", "rel", "rel/x"]);
}

#[test]
fn linked_columns_point_at_the_next_directory() {
    let read = |es: Vec<DirEntry>| DirReadOutcome { entries: es, permission_denied: false, sudo_password_required: false };
    let at = |name: &str, path: &str| {
        let mut e = entry(name, true, 0, None);
        e.path = path.to_string();
        e
    };
    let mut cols = vec![
        DirColumn::from_path("/".to_string(), read(vec![at("x", "/x"), at("d", "/d")])),
        DirColumn::from_path("/d".to_string(), read(vec![at("a", "/d/a"), at("inner", "/d/inner")])),
        DirColumn::from_path("/elsewhere".to_string(), read(vec![])),
    ];
    assert_eq!(cols[0].selected, 0);
    cols[1].selected = 1;
    cols[2].selected = 7;
    link_columns(&mut cols);
    assert_eq!(cols[0].selected, 1);
    assert_eq!(cols[1].selected, 1);
    assert_eq!(cols[2].selected, 7);
    cols[2].path = "/d/a".to_string();
    link_columns(&mut cols);
    assert_eq!(cols[1].selected, 0);
}

#[test]
fn scroll_keeps_the_anchor_in_the_window() {
    assert_eq!(scroll_start(5, 10, 3), 0);
    assert_eq!(scroll_start(100, 10, 3), 0);
    assert_eq!(scroll_start(100, 10, 50), 45);
    assert_eq!(scroll_start(100, 10, 99), 90);
    assert_eq!(scroll_start(100, 0, 50), 0);
    for anchor in 0..100 {
        let s = scroll_start(100, 7, anchor);
        assert!(s <= anchor && anchor < s + 7);
        assert!(s + 7 <= 100);
    }
}

#[test]
fn size_units_step_by_1024() {
    assert_eq!(size_unit(0), 0);
    assert_eq!(size_unit(1023), 0);
    assert_eq!(size_unit(1024), 1);
    assert_eq!(size_unit(1024 * 1024), 2);
    assert_eq!(size_unit(5 * 1024 * 1024 * 1024), 3);
    assert_eq!(size_unit(u64::MAX), 4);
    assert_eq!(size_unit_name(0), "B");
    assert_eq!(size_unit_name(2), "MB");
    assert_eq!(size_unit_name(4), "TB");
}

#[test]
fn drives_come_from_mnt_and_media_mounts() {
    let table = "sysfs /sys sysfs rw 0 0\n\
/dev/sdb1 /media/usb vfat rw 0 0\n\
/dev/sdc1 /mnt/data ext4 rw 0 0\n\
/dev/sdb1 /media/usb vfat rw 0 0\n\
proc /proc proc rw 0 0\n";
    assert_eq!(drives_from_mounts(Some(table)), vec!["/", "/media/usb", "/mnt/data"]);
    assert_eq!(drives_from_mounts(None), vec!["/"]);
    let mut long = String::new();
    for i in 0..25 {
        long.push_str(&format!("dev /mnt/d{i:02} ext4 rw 0 0\n"));
    }
    let d = drives_from_mounts(Some(&long));
    assert_eq!(d.len(), 21);
    assert_eq!(d.last().unwrap(), "/mnt/d19");
}

#[test]
fn two_entries_compare_as_the_listing_sorts_them() {
    let docs = entry("docs", true, 0, None);
    let a = entry("a.txt", false, 10, Some((5, 0)));
    let b = entry("B.md", false, 99, Some((9, 0)));
    assert_eq!(compare_entries(&docs, &a, "name"), -1);
    assert_eq!(compare_entries(&a, &docs, "name"), 1);
    assert_eq!(compare_entries(&a, &b, "name"), -1);
    assert_eq!(compare_entries(&a, &b, "size"), 1);
    assert_eq!(compare_entries(&a, &b, "modified"), 1);
    assert_eq!(compare_entries(&b, &a, "type"), -1);
    assert_eq!(compare_entries(&a, &a, "name"), 0);
}

#[test]
fn link_columns_finds_the_next_column_in_any_spelling() {
    let mut cols = vec![
        DirColumn::from_path(
            "/d".to_string(),
            DirReadOutcome { entries: vec![entry("a.txt", false, 0, None), entry("sub", true, 0, None)], permission_denied: false, sudo_password_required: false },
        ),
        DirColumn::from_path(
            "/d/./sub/".to_string(),
            DirReadOutcome { entries: vec![], permission_denied: false, sudo_password_required: false },
        ),
    ];
    link_columns(&mut cols);
    assert_eq!(cols[0].selected, 1);
}
