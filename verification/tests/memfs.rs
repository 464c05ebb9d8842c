use rezygisk::{Entry, Event, FsOp, IoError, MemFs, PathKind};

fn b(s: &str) -> Vec<u8> {
    s.as_bytes().to_vec()
}

fn file(data: &str, mode: u32) -> Option<Entry> {
    Some(Entry::File { data: b(data), mode })
}

#[test]
fn new_tree_is_empty() {
    let fs = MemFs::new();
    assert_eq!(fs.kind(&b("/")), PathKind::Absent);
    assert_eq!(fs.get(&b("/a")), None);
}

#[test]
fn stat_tells_files_from_directories() {
    let mut fs = MemFs::new();
    fs.put_dir(&b("/d"));
    fs.put_file(&b("/f"), &b("x"), 0o600);
    assert_eq!(fs.perform(&FsOp::Stat { path: b("/d") }), Event::Kind(PathKind::Dir));
    assert_eq!(fs.perform(&FsOp::Stat { path: b("/f") }), Event::Kind(PathKind::File));
    assert_eq!(fs.perform(&FsOp::Stat { path: b("/g") }), Event::Kind(PathKind::Absent));
}

#[test]
fn write_creates_with_default_mode() {
    let mut fs = MemFs::new();
    let done = fs.perform(&FsOp::Write { path: b("/f"), data: b("hello") });
    assert_eq!(done, Event::Done(Ok(())));
    assert_eq!(fs.get(&b("/f")), file("hello", 0o644));
}

#[test]
fn write_truncates_and_keeps_the_mode() {
    let mut fs = MemFs::new();
    fs.put_file(&b("/f"), &b("a long text"), 0o755);
    let done = fs.perform(&FsOp::Write { path: b("/f"), data: b("x") });
    assert_eq!(done, Event::Done(Ok(())));
    assert_eq!(fs.get(&b("/f")), file("x", 0o755));
}

#[test]
fn write_over_a_directory_fails() {
    let mut fs = MemFs::new();
    fs.put_dir(&b("/d"));
    let done = fs.perform(&FsOp::Write { path: b("/d"), data: b("x") });
    assert_eq!(done, Event::Done(Err(IoError { code: 21 })));
    assert_eq!(fs.get(&b("/d")), Some(Entry::Dir));
}

#[test]
fn read_gives_the_bytes() {
    let mut fs = MemFs::new();
    fs.put_file(&b("/f"), &b("data"), 0o644);
    fs.put_dir(&b("/d"));
    assert_eq!(fs.perform(&FsOp::Read { path: b("/f") }), Event::Data(Ok(b("data"))));
    assert_eq!(fs.perform(&FsOp::Read { path: b("/d") }), Event::Data(Err(IoError { code: 21 })));
    assert_eq!(fs.perform(&FsOp::Read { path: b("/x") }), Event::Data(Err(IoError { code: 2 })));
}

#[test]
fn set_mode_changes_only_the_mode() {
    let mut fs = MemFs::new();
    fs.put_file(&b("/f"), &b("data"), 0o644);
    assert_eq!(fs.perform(&FsOp::SetMode { path: b("/f"), mode: 0o755 }), Event::Done(Ok(())));
    assert_eq!(fs.get(&b("/f")), file("data", 0o755));
    assert_eq!(
        fs.perform(&FsOp::SetMode { path: b("/x"), mode: 0o755 }),
        Event::Done(Err(IoError { code: 2 }))
    );
}

#[test]
fn remove_file_takes_one_path() {
    let mut fs = MemFs::new();
    fs.put_file(&b("/a"), &b("1"), 0o644);
    fs.put_file(&b("/a/b"), &b("2"), 0o644);
    fs.put_file(&b("/c"), &b("3"), 0o644);
    assert_eq!(fs.perform(&FsOp::RemoveFile { path: b("/a") }), Event::Done(Ok(())));
    assert_eq!(fs.get(&b("/a")), None);
    assert_eq!(fs.get(&b("/a/b")), file("2", 0o644));
    assert_eq!(fs.get(&b("/c")), file("3", 0o644));
}

#[test]
fn remove_file_refuses_directories_and_absent_paths() {
    let mut fs = MemFs::new();
    fs.put_dir(&b("/d"));
    assert_eq!(
        fs.perform(&FsOp::RemoveFile { path: b("/d") }),
        Event::Done(Err(IoError { code: 21 }))
    );
    assert_eq!(
        fs.perform(&FsOp::RemoveFile { path: b("/x") }),
        Event::Done(Err(IoError { code: 2 }))
    );
    assert_eq!(fs.get(&b("/d")), Some(Entry::Dir));
}

#[test]
fn remove_dir_all_takes_everything_below() {
    let mut fs = MemFs::new();
    fs.put_dir(&b("/m"));
    fs.put_dir(&b("/m/rezygisk"));
    fs.put_file(&b("/m/rezygisk/module.prop"), &b("id=rezygisk"), 0o644);
    fs.put_dir(&b("/m/rezygisk/lib"));
    fs.put_file(&b("/m/rezygisk/lib/a.so"), &b("elf"), 0o644);
    fs.put_file(&b("/m/rezygisk2"), &b("keep"), 0o644);
    fs.put_file(&b("/m/other"), &b("keep"), 0o644);

    assert_eq!(fs.perform(&FsOp::RemoveDirAll { path: b("/m/rezygisk") }), Event::Done(Ok(())));

    assert_eq!(fs.get(&b("/m/rezygisk")), None);
    assert_eq!(fs.get(&b("/m/rezygisk/module.prop")), None);
    assert_eq!(fs.get(&b("/m/rezygisk/lib")), None);
    assert_eq!(fs.get(&b("/m/rezygisk/lib/a.so")), None);
    assert_eq!(fs.get(&b("/m")), Some(Entry::Dir));
    assert_eq!(fs.get(&b("/m/rezygisk2")), file("keep", 0o644));
    assert_eq!(fs.get(&b("/m/other")), file("keep", 0o644));
}

#[test]
fn remove_dir_all_refuses_files_and_absent_paths() {
    let mut fs = MemFs::new();
    fs.put_file(&b("/f"), &b("x"), 0o644);
    assert_eq!(
        fs.perform(&FsOp::RemoveDirAll { path: b("/f") }),
        Event::Done(Err(IoError { code: 20 }))
    );
    assert_eq!(
        fs.perform(&FsOp::RemoveDirAll { path: b("/x") }),
        Event::Done(Err(IoError { code: 2 }))
    );
    assert_eq!(fs.get(&b("/f")), file("x", 0o644));
}

#[test]
fn put_replaces_what_stands_there() {
    let mut fs = MemFs::new();
    fs.put_file(&b("/p"), &b("x"), 0o644);
    fs.put_dir(&b("/p"));
    assert_eq!(fs.get(&b("/p")), Some(Entry::Dir));
    fs.put_file(&b("/p"), &b("y"), 0o600);
    assert_eq!(fs.get(&b("/p")), file("y", 0o600));
}
