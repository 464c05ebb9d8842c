use rezygisk::install::INSTALLER_MODE;
use rezygisk::{
    extract_rezygisk_to, install_rezygisk, Action, Assets, Config, Entry, Event, Extract, FsOp,
    Install, InstallPhase, IoError, MemFs, PathKind,
};

const STUB: &str = "echo A; mount_partitions; echo B";

fn b(s: &str) -> Vec<u8> {
    s.as_bytes().to_vec()
}

fn assets() -> Assets {
    Assets {
        payload: b("PK\x03\x04 archive"),
        installer_script: b("#!/system/bin/sh\n# installer"),
        util_script: b("# stand-in without mount_partitions"),
    }
}

fn cfg() -> Config {
    Config::new(b("/data/adb/modules"))
}

fn file(data: &str, mode: u32) -> Option<Entry> {
    Some(Entry::File { data: b(data), mode })
}

fn materialize(fs: &mut MemFs, path: &str) {
    let mut job = Extract::new(&assets(), &b(path));
    let mut event = Event::Start;
    loop {
        match extract_rezygisk_to(&mut job, event) {
            Action::Finish(result) => {
                assert_eq!(result, Ok(()));
                return;
            },
            Action::Fs(op) => event = fs.perform(&op),
            other => panic!("an extraction never asks {:?}", other),
        }
    }
}

/// A tree with a payload at `/tmp/p` and a stub utility script below `/sec`.
fn prepared() -> MemFs {
    let mut fs = MemFs::new();
    materialize(&mut fs, "/tmp/p");
    fs.put_file(&b("/sec/magisk/util_functions.sh"), &b(STUB), 0o644);
    fs
}

/// What the installer script does when it is run: it unpacks the module.
fn unpack(fs: &mut MemFs) {
    fs.put_dir(&b("/data/adb/modules/rezygisk"));
    fs.put_file(&b("/data/adb/modules/rezygisk/module.prop"), &b("id=rezygisk"), 0o644);
}

struct Run {
    result: Result<(), IoError>,
    asked: Vec<Action>,
    util_seen_by_installer: Option<Entry>,
}

fn drive(
    job: &mut Install,
    fs: &mut MemFs,
    exit: Result<Option<i32>, IoError>,
    installer: fn(&mut MemFs),
) -> Run {
    let mut asked = Vec::new();
    let mut util_seen_by_installer = None;
    let mut event = Event::Start;
    loop {
        let action = install_rezygisk(job, event);
        event = match &action {
            Action::Finish(result) => {
                return Run { result: *result, asked, util_seen_by_installer };
            },
            Action::Fs(op) => fs.perform(op),
            Action::Spawn { .. } => {
                util_seen_by_installer = fs.get(&b("/sec/magisk/util_functions.sh"));
                if exit.is_ok() {
                    installer(fs);
                }
                Event::Exited(exit)
            },
            other => panic!("an installation never asks {:?}", other),
        };
        asked.push(action);
    }
}

fn install(fs: &mut MemFs) -> Run {
    let mut job = Install::new(&cfg(), &assets(), &b("/tmp/p"), &b("/sec"));
    drive(&mut job, fs, Ok(Some(0)), unpack)
}

#[test]
fn new_installation_knows_its_paths() {
    let job = Install::new(&cfg(), &assets(), &b("/tmp/p"), &b("/sec"));
    assert_eq!(job.phase, InstallPhase::Start);
    assert_eq!(job.payload, b("/tmp/p"));
    assert_eq!(job.module_dir, b("/data/adb/modules/rezygisk"));
    assert_eq!(job.installer, b("/sec/magisk/module_installer.sh"));
    assert_eq!(job.util, b("/sec/magisk/util_functions.sh"));
    assert_eq!(job.sentinel, b("/data/local/tmp/rezygisk"));
    assert_eq!(job.installer_script, assets().installer_script);
    assert_eq!(job.util_script, assets().util_script);
    assert_eq!(job.saved, Vec::<u8>::new());
    assert_eq!(job.status, None);
    assert!(!job.is_done());
}

#[test]
fn end_to_end_install() {
    let mut fs = prepared();
    let run = install(&mut fs);

    assert_eq!(run.result, Ok(()));
    assert_eq!(fs.kind(&b("/tmp/p")), PathKind::Absent);
    assert_eq!(
        fs.get(&b("/sec/magisk/module_installer.sh")),
        file("#!/system/bin/sh\n# installer", 0o755)
    );
    assert_eq!(fs.get(&b("/data/local/tmp/rezygisk")), file("", 0o644));
    assert_eq!(fs.get(&b("/sec/magisk/util_functions.sh")), file(STUB, 0o644));
    assert_eq!(fs.kind(&b("/data/adb/modules/rezygisk")), PathKind::Dir);
}

#[test]
fn install_asks_in_order() {
    let mut fs = prepared();
    let run = install(&mut fs);
    let payload = b("/tmp/p");
    let util = b("/sec/magisk/util_functions.sh");
    let installer = b("/sec/magisk/module_installer.sh");
    let module = b("/data/adb/modules/rezygisk");
    let marker = b("/data/local/tmp/rezygisk");
    assert_eq!(
        run.asked,
        vec![
            Action::Fs(FsOp::Stat { path: payload.clone() }),
            Action::Fs(FsOp::Stat { path: util.clone() }),
            Action::Fs(FsOp::Stat { path: module }),
            Action::Fs(FsOp::Stat { path: installer.clone() }),
            Action::Fs(FsOp::Write { path: installer.clone(), data: assets().installer_script }),
            Action::Fs(FsOp::SetMode { path: installer.clone(), mode: 0o755 }),
            Action::Fs(FsOp::Read { path: util.clone() }),
            Action::Fs(FsOp::Write { path: util.clone(), data: assets().util_script }),
            Action::Spawn {
                program: b("sh"),
                args: vec![installer, b("/dev/null"), b("1"), payload.clone()],
            },
            Action::Fs(FsOp::Write { path: util, data: b(STUB) }),
            Action::Fs(FsOp::Stat { path: payload.clone() }),
            Action::Fs(FsOp::RemoveFile { path: payload }),
            Action::Fs(FsOp::Stat { path: marker.clone() }),
            Action::Fs(FsOp::Write { path: marker, data: Vec::new() }),
        ]
    );
}

#[test]
fn installer_mode_is_rwxr_xr_x() {
    assert_eq!(INSTALLER_MODE, 0o755);
    assert_eq!(INSTALLER_MODE, 493);
}

#[test]
fn installer_runs_against_the_stand_in() {
    let mut fs = prepared();
    let run = install(&mut fs);
    assert_eq!(
        run.util_seen_by_installer,
        file("# stand-in without mount_partitions", 0o644)
    );
    assert_eq!(fs.get(&b("/sec/magisk/util_functions.sh")), file(STUB, 0o644));
}

#[test]
fn util_script_is_restored_byte_for_byte() {
    let marker = "# unique-7f3a\nmount_partitions\n\0\u{ff}tail";
    let mut fs = prepared();
    fs.put_file(&b("/sec/magisk/util_functions.sh"), &b(marker), 0o600);
    let run = install(&mut fs);
    assert_eq!(run.result, Ok(()));
    assert_eq!(fs.get(&b("/sec/magisk/util_functions.sh")), file(marker, 0o600));
}

#[test]
fn util_script_is_restored_when_the_installer_fails() {
    fn tamper(fs: &mut MemFs) {
        fs.put_file(&b("/sec/magisk/util_functions.sh"), &b("clobbered"), 0o644);
    }
    let mut fs = prepared();
    let mut job = Install::new(&cfg(), &assets(), &b("/tmp/p"), &b("/sec"));
    let run = drive(&mut job, &mut fs, Ok(Some(1)), tamper);
    assert_eq!(run.result, Ok(()));
    assert_eq!(job.status, Some(Some(1)));
    assert_eq!(fs.get(&b("/sec/magisk/util_functions.sh")), file(STUB, 0o644));
    assert_eq!(fs.get(&b("/data/local/tmp/rezygisk")), file("", 0o644));
}

#[test]
fn exit_status_is_recorded_not_judged() {
    let mut fs = prepared();
    let mut job = Install::new(&cfg(), &assets(), &b("/tmp/p"), &b("/sec"));
    let run = drive(&mut job, &mut fs, Ok(None), unpack);
    assert_eq!(run.result, Ok(()));
    assert_eq!(job.status, Some(None));

    let mut fs = prepared();
    let mut job = Install::new(&cfg(), &assets(), &b("/tmp/p"), &b("/sec"));
    let run = drive(&mut job, &mut fs, Ok(Some(127)), unpack);
    assert_eq!(run.result, Ok(()));
    assert_eq!(job.status, Some(Some(127)));
}

#[test]
fn install_without_payload_touches_nothing() {
    let mut fs = MemFs::new();
    fs.put_file(&b("/sec/magisk/util_functions.sh"), &b(STUB), 0o644);
    fs.put_dir(&b("/data/adb/modules/rezygisk"));
    let run = install(&mut fs);
    assert_eq!(run.result, Ok(()));
    assert_eq!(run.asked, vec![Action::Fs(FsOp::Stat { path: b("/tmp/p") })]);
    assert_eq!(fs.get(&b("/sec/magisk/util_functions.sh")), file(STUB, 0o644));
    assert_eq!(fs.kind(&b("/sec/magisk/module_installer.sh")), PathKind::Absent);
    assert_eq!(fs.kind(&b("/data/local/tmp/rezygisk")), PathKind::Absent);
    assert_eq!(fs.kind(&b("/data/adb/modules/rezygisk")), PathKind::Dir);
}

#[test]
fn install_with_a_directory_for_payload_touches_nothing() {
    let mut fs = MemFs::new();
    fs.put_dir(&b("/tmp/p"));
    fs.put_file(&b("/sec/magisk/util_functions.sh"), &b(STUB), 0o644);
    let run = install(&mut fs);
    assert_eq!(run.result, Ok(()));
    assert_eq!(run.asked.len(), 1);
    assert_eq!(fs.kind(&b("/tmp/p")), PathKind::Dir);
}

#[test]
fn install_without_util_script_touches_nothing() {
    let mut fs = MemFs::new();
    materialize(&mut fs, "/tmp/p");
    fs.put_dir(&b("/data/adb/modules/rezygisk"));
    let run = install(&mut fs);
    assert_eq!(run.result, Ok(()));
    assert_eq!(
        run.asked,
        vec![
            Action::Fs(FsOp::Stat { path: b("/tmp/p") }),
            Action::Fs(FsOp::Stat { path: b("/sec/magisk/util_functions.sh") }),
        ]
    );
    assert_eq!(fs.kind(&b("/tmp/p")), PathKind::File);
    assert_eq!(fs.kind(&b("/data/adb/modules/rezygisk")), PathKind::Dir);
    assert_eq!(fs.kind(&b("/data/local/tmp/rezygisk")), PathKind::Absent);
}

#[test]
fn install_twice_in_a_row_is_install_once() {
    let mut fs = prepared();
    assert_eq!(install(&mut fs).result, Ok(()));
    let module = fs.get(&b("/data/adb/modules/rezygisk/module.prop"));
    let installer = fs.get(&b("/sec/magisk/module_installer.sh"));

    let again = install(&mut fs);
    assert_eq!(again.result, Ok(()));
    assert_eq!(again.asked, vec![Action::Fs(FsOp::Stat { path: b("/tmp/p") })]);
    assert_eq!(fs.kind(&b("/tmp/p")), PathKind::Absent);
    assert_eq!(fs.get(&b("/data/local/tmp/rezygisk")), file("", 0o644));
    assert_eq!(fs.get(&b("/sec/magisk/util_functions.sh")), file(STUB, 0o644));
    assert_eq!(fs.get(&b("/data/adb/modules/rezygisk/module.prop")), module);
    assert_eq!(fs.get(&b("/sec/magisk/module_installer.sh")), installer);
}

#[test]
fn install_again_with_a_fresh_payload_ends_the_same() {
    let mut fs = prepared();
    assert_eq!(install(&mut fs).result, Ok(()));
    let first = (
        fs.get(&b("/data/adb/modules/rezygisk/module.prop")),
        fs.get(&b("/sec/magisk/module_installer.sh")),
        fs.get(&b("/sec/magisk/util_functions.sh")),
        fs.get(&b("/data/local/tmp/rezygisk")),
        fs.kind(&b("/tmp/p")),
    );

    materialize(&mut fs, "/tmp/p");
    let again = install(&mut fs);
    assert_eq!(again.result, Ok(()));
    assert!(again.asked.contains(&Action::Fs(FsOp::RemoveDirAll {
        path: b("/data/adb/modules/rezygisk")
    })));
    assert!(again.asked.contains(&Action::Fs(FsOp::RemoveFile {
        path: b("/data/local/tmp/rezygisk")
    })));
    let second = (
        fs.get(&b("/data/adb/modules/rezygisk/module.prop")),
        fs.get(&b("/sec/magisk/module_installer.sh")),
        fs.get(&b("/sec/magisk/util_functions.sh")),
        fs.get(&b("/data/local/tmp/rezygisk")),
        fs.kind(&b("/tmp/p")),
    );
    assert_eq!(first, second);
}

#[test]
fn stale_module_directory_is_cleared_first() {
    let mut fs = prepared();
    fs.put_dir(&b("/data/adb/modules/rezygisk"));
    fs.put_file(&b("/data/adb/modules/rezygisk/leftover"), &b("old"), 0o644);
    let run = install(&mut fs);
    assert_eq!(run.result, Ok(()));
    assert_eq!(
        run.asked[3],
        Action::Fs(FsOp::RemoveDirAll { path: b("/data/adb/modules/rezygisk") })
    );
    assert_eq!(fs.kind(&b("/data/adb/modules/rezygisk/leftover")), PathKind::Absent);
    assert_eq!(fs.kind(&b("/data/adb/modules/rezygisk/module.prop")), PathKind::File);
}

#[test]
fn existing_installer_script_is_kept() {
    let mut fs = prepared();
    fs.put_file(&b("/sec/magisk/module_installer.sh"), &b("# the host's own"), 0o700);
    let run = install(&mut fs);
    assert_eq!(run.result, Ok(()));
    assert_eq!(fs.get(&b("/sec/magisk/module_installer.sh")), file("# the host's own", 0o700));
    assert!(!run.asked.iter().any(|a| matches!(a, Action::Fs(FsOp::SetMode { .. }))));
}

#[test]
fn directory_in_place_of_installer_script_is_replaced() {
    let mut fs = prepared();
    fs.put_dir(&b("/sec/magisk/module_installer.sh"));
    fs.put_file(&b("/sec/magisk/module_installer.sh/x"), &b("x"), 0o644);
    let run = install(&mut fs);
    assert_eq!(run.result, Ok(()));
    assert_eq!(
        fs.get(&b("/sec/magisk/module_installer.sh")),
        file("#!/system/bin/sh\n# installer", 0o755)
    );
    assert_eq!(fs.kind(&b("/sec/magisk/module_installer.sh/x")), PathKind::Absent);
}

#[test]
fn old_marker_is_replaced_by_an_empty_one() {
    let mut fs = prepared();
    fs.put_file(&b("/data/local/tmp/rezygisk"), &b("stale"), 0o600);
    let run = install(&mut fs);
    assert_eq!(run.result, Ok(()));
    assert_eq!(fs.get(&b("/data/local/tmp/rezygisk")), file("", 0o644));
}

#[test]
fn spawn_failure_puts_the_util_script_back() {
    let mut fs = prepared();
    let mut job = Install::new(&cfg(), &assets(), &b("/tmp/p"), &b("/sec"));
    let run = drive(&mut job, &mut fs, Err(IoError { code: 8 }), unpack);
    assert_eq!(run.result, Err(IoError { code: 8 }));
    assert!(job.is_done());
    assert_eq!(job.status, None);
    assert_eq!(
        run.util_seen_by_installer,
        file("# stand-in without mount_partitions", 0o644)
    );
    assert_eq!(
        run.asked.last(),
        Some(&Action::Fs(FsOp::Write { path: b("/sec/magisk/util_functions.sh"), data: b(STUB) }))
    );
    assert!(matches!(run.asked[run.asked.len() - 2], Action::Spawn { .. }));
    assert_eq!(fs.get(&b("/sec/magisk/util_functions.sh")), file(STUB, 0o644));
    assert_eq!(fs.kind(&b("/tmp/p")), PathKind::File);
    assert_eq!(fs.kind(&b("/data/local/tmp/rezygisk")), PathKind::Absent);
}

#[test]
fn spawn_failure_is_reported_whatever_the_write_back_gives() {
    let mut events = to_read_util();
    events.push(Event::Data(Ok(b(STUB))));
    events.push(ok());
    events.push(Event::Exited(Err(IoError { code: 2 })));
    let (mut job, last) = feed(events);
    assert_eq!(job.phase, InstallPhase::RevertUtil(IoError { code: 2 }));
    assert_eq!(
        last,
        Action::Fs(FsOp::Write { path: b("/sec/magisk/util_functions.sh"), data: b(STUB) })
    );
    assert_eq!(install_rezygisk(&mut job, fail(28)), Action::Finish(Err(IoError { code: 2 })));
    assert!(job.is_done());

    let mut events = to_read_util();
    events.push(Event::Data(Ok(b(STUB))));
    events.push(ok());
    events.push(Event::Exited(Err(IoError { code: 2 })));
    events.push(ok());
    let (job, last) = feed(events);
    assert_eq!(last, Action::Finish(Err(IoError { code: 2 })));
    assert!(job.is_done());
}

#[test]
fn util_script_is_back_when_a_later_step_fails() {
    let mut fs = prepared();
    let mut job = Install::new(&cfg(), &assets(), &b("/tmp/p"), &b("/sec"));
    let mut event = Event::Start;
    let result = loop {
        match install_rezygisk(&mut job, event) {
            Action::Finish(result) => break result,
            Action::Fs(FsOp::RemoveFile { path }) if path == b("/tmp/p") => {
                event = Event::Done(Err(IoError { code: 16 }));
            },
            Action::Fs(op) => event = fs.perform(&op),
            Action::Spawn { .. } => event = Event::Exited(Ok(Some(0))),
            other => panic!("an installation never asks {:?}", other),
        }
    };
    assert_eq!(result, Err(IoError { code: 16 }));
    assert_eq!(fs.get(&b("/sec/magisk/util_functions.sh")), file(STUB, 0o644));
}

/// Feeds `events` to a new installation and returns what it asks last.
fn feed(events: Vec<Event>) -> (Install, Action) {
    let mut job = Install::new(&cfg(), &assets(), &b("/tmp/p"), &b("/sec"));
    let mut last = Action::Finish(Ok(()));
    for event in events {
        last = install_rezygisk(&mut job, event);
    }
    (job, last)
}

fn ok() -> Event {
    Event::Done(Ok(()))
}

fn fail(code: i32) -> Event {
    Event::Done(Err(IoError { code }))
}

fn kind(k: PathKind) -> Event {
    Event::Kind(k)
}

fn to_read_util() -> Vec<Event> {
    vec![
        Event::Start,
        kind(PathKind::File),
        kind(PathKind::File),
        kind(PathKind::Absent),
        kind(PathKind::File),
    ]
}

#[test]
fn failure_to_clear_the_module_directory_is_surfaced() {
    let (job, last) = feed(vec![
        Event::Start,
        kind(PathKind::File),
        kind(PathKind::File),
        kind(PathKind::Dir),
        fail(13),
    ]);
    assert_eq!(last, Action::Finish(Err(IoError { code: 13 })));
    assert!(job.is_done());
}

#[test]
fn failure_to_write_the_installer_script_is_surfaced() {
    let (_, last) = feed(vec![
        Event::Start,
        kind(PathKind::File),
        kind(PathKind::File),
        kind(PathKind::Absent),
        kind(PathKind::Other),
        ok(),
        fail(28),
    ]);
    assert_eq!(last, Action::Finish(Err(IoError { code: 28 })));
}

#[test]
fn failure_to_set_the_mode_is_surfaced() {
    let (_, last) = feed(vec![
        Event::Start,
        kind(PathKind::File),
        kind(PathKind::File),
        kind(PathKind::Absent),
        kind(PathKind::Absent),
        ok(),
        fail(1),
    ]);
    assert_eq!(last, Action::Finish(Err(IoError { code: 1 })));
}

#[test]
fn failure_to_read_the_util_script_is_surfaced() {
    let mut events = to_read_util();
    events.push(Event::Data(Err(IoError { code: 5 })));
    let (_, last) = feed(events);
    assert_eq!(last, Action::Finish(Err(IoError { code: 5 })));
}

#[test]
fn failure_to_patch_the_util_script_is_surfaced() {
    let mut events = to_read_util();
    events.push(Event::Data(Ok(b(STUB))));
    events.push(fail(30));
    let (_, last) = feed(events);
    assert_eq!(last, Action::Finish(Err(IoError { code: 30 })));
}

#[test]
fn failure_to_restore_the_util_script_is_surfaced() {
    let mut events = to_read_util();
    events.push(Event::Data(Ok(b(STUB))));
    events.push(ok());
    events.push(Event::Exited(Ok(Some(0))));
    let (job, last) = feed(events);
    assert_eq!(job.phase, InstallPhase::RestoreUtil);
    assert_eq!(
        last,
        Action::Fs(FsOp::Write { path: b("/sec/magisk/util_functions.sh"), data: b(STUB) })
    );
    let mut job = job;
    assert_eq!(install_rezygisk(&mut job, fail(28)), Action::Finish(Err(IoError { code: 28 })));
}

#[test]
fn failure_to_remove_the_payload_is_surfaced() {
    let mut events = to_read_util();
    events.extend(vec![
        Event::Data(Ok(b(STUB))),
        ok(),
        Event::Exited(Ok(Some(0))),
        ok(),
        kind(PathKind::File),
        fail(16),
    ]);
    let (_, last) = feed(events);
    assert_eq!(last, Action::Finish(Err(IoError { code: 16 })));
}

#[test]
fn failure_to_create_the_marker_is_surfaced() {
    let mut events = to_read_util();
    events.extend(vec![
        Event::Data(Ok(b(STUB))),
        ok(),
        Event::Exited(Ok(Some(0))),
        ok(),
        kind(PathKind::Absent),
        kind(PathKind::File),
        ok(),
        fail(13),
    ]);
    let (_, last) = feed(events);
    assert_eq!(last, Action::Finish(Err(IoError { code: 13 })));
}

#[test]
fn answer_out_of_turn_ends_the_installation() {
    let (job, last) = feed(vec![Event::Start, ok()]);
    assert_eq!(last, Action::Finish(Err(IoError { code: 71 })));
    assert!(job.is_done());

    let (_, last) = feed(vec![kind(PathKind::File)]);
    assert_eq!(last, Action::Finish(Err(IoError { code: 71 })));

    let mut events = to_read_util();
    events.push(ok());
    let (_, last) = feed(events);
    assert_eq!(last, Action::Finish(Err(IoError { code: 71 })));
}

#[test]
fn finished_installation_answers_nothing_more() {
    let mut fs = MemFs::new();
    let mut job = Install::new(&cfg(), &assets(), &b("/tmp/p"), &b("/sec"));
    let run = drive(&mut job, &mut fs, Ok(Some(0)), unpack);
    assert_eq!(run.result, Ok(()));
    assert_eq!(install_rezygisk(&mut job, Event::Start), Action::Finish(Err(IoError { code: 71 })));
}
