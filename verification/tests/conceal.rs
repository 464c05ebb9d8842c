use rezygisk::conceal::{POLL_MS, RETRY_MS, UNMOUNT_CEILING_MS};
use rezygisk::{
    hide_rezygisk, Action, Config, Entry, Event, FsOp, Hide, HidePhase, IoError, MemFs, PathKind,
};

fn b(s: &str) -> Vec<u8> {
    s.as_bytes().to_vec()
}

fn cfg() -> Config {
    Config::new(b("/data/adb/modules"))
}

fn installed() -> MemFs {
    let mut fs = MemFs::new();
    fs.put_dir(&b("/data/adb/modules"));
    fs.put_dir(&b("/data/adb/modules/rezygisk"));
    fs.put_file(&b("/data/adb/modules/rezygisk/module.prop"), &b("id=rezygisk"), 0o644);
    fs.put_dir(&b("/data/adb/modules/other"));
    fs.put_file(&b("/data/local/tmp/rezygisk"), &Vec::new(), 0o644);
    fs
}

struct Run {
    result: Result<(), IoError>,
    looks: usize,
    detaches: usize,
    slept: u64,
    asked: Vec<Action>,
}

/// Drives a concealment: the awaited process shows at look number `shows_at`,
/// and the attempts to detach fail until `free_at` of them were made.
fn drive(fs: &mut MemFs, shows_at: usize, free_at: usize) -> Run {
    let mut job = Hide::new(&cfg());
    let mut run = Run { result: Ok(()), looks: 0, detaches: 0, slept: 0, asked: Vec::new() };
    let mut event = Event::Start;
    loop {
        let action = hide_rezygisk(&mut job, event);
        event = match &action {
            Action::Finish(result) => {
                run.result = *result;
                assert!(job.is_done());
                return run;
            },
            Action::Fs(op) => fs.perform(op),
            Action::ListProcesses => {
                let mut table = vec![b("/system/bin/init"), b("zygote64")];
                if run.looks >= shows_at {
                    table.push(b("com.android.shell\0"));
                }
                run.looks += 1;
                Event::Processes(Ok(table))
            },
            Action::Sleep { millis } => {
                run.slept += u64::from(*millis);
                Event::Done(Ok(()))
            },
            Action::Unmount { path } => {
                assert_eq!(path, &b("/data/adb/modules/rezygisk/module.prop"));
                run.detaches += 1;
                if run.detaches > free_at {
                    Event::Done(Ok(()))
                } else {
                    Event::Done(Err(IoError { code: 16 }))
                }
            },
            other => panic!("a concealment never asks {:?}", other),
        };
        run.asked.push(action);
    }
}

#[test]
fn documented_intervals() {
    assert_eq!(POLL_MS, 1000);
    assert_eq!(RETRY_MS, 100);
    assert_eq!(UNMOUNT_CEILING_MS, 20000);
}

#[test]
fn new_concealment_knows_its_paths() {
    let job = Hide::new(&cfg());
    assert_eq!(job.phase, HidePhase::Start);
    assert_eq!(job.module_dir, b("/data/adb/modules/rezygisk"));
    assert_eq!(job.module_prop, b("/data/adb/modules/rezygisk/module.prop"));
    assert_eq!(job.marker, b("com.android.shell"));
    assert_eq!(job.spent, 0);
    assert!(!job.is_done());
}

#[test]
fn hide_removes_the_module_directory() {
    let mut fs = installed();
    let run = drive(&mut fs, 0, 0);
    assert_eq!(run.result, Ok(()));
    assert_eq!(
        run.asked,
        vec![
            Action::ListProcesses,
            Action::Fs(FsOp::Stat { path: b("/data/adb/modules/rezygisk/module.prop") }),
            Action::Unmount { path: b("/data/adb/modules/rezygisk/module.prop") },
            Action::Fs(FsOp::Stat { path: b("/data/adb/modules/rezygisk") }),
            Action::Fs(FsOp::RemoveDirAll { path: b("/data/adb/modules/rezygisk") }),
        ]
    );
    assert_eq!(fs.kind(&b("/data/adb/modules/rezygisk")), PathKind::Absent);
    assert_eq!(fs.kind(&b("/data/adb/modules/rezygisk/module.prop")), PathKind::Absent);
    assert_eq!(fs.kind(&b("/data/adb/modules/other")), PathKind::Dir);
    assert_eq!(fs.kind(&b("/data/adb/modules")), PathKind::Dir);
}

#[test]
fn hide_never_touches_the_marker() {
    let mut fs = installed();
    let run = drive(&mut fs, 2, 3);
    assert_eq!(run.result, Ok(()));
    assert_eq!(
        fs.get(&b("/data/local/tmp/rezygisk")),
        Some(Entry::File { data: Vec::new(), mode: 0o644 })
    );
}

#[test]
fn hide_waits_for_the_process_once_a_second() {
    let mut fs = installed();
    let run = drive(&mut fs, 5, 0);
    assert_eq!(run.result, Ok(()));
    assert_eq!(run.looks, 6);
    assert_eq!(run.slept, 5000);
    assert_eq!(run.detaches, 1);
    assert_eq!(run.asked[0], Action::ListProcesses);
    assert_eq!(run.asked[1], Action::Sleep { millis: 1000 });
    assert_eq!(run.asked[2], Action::ListProcesses);
}

#[test]
fn nothing_is_removed_while_the_process_is_awaited() {
    let mut job = Hide::new(&cfg());
    assert_eq!(hide_rezygisk(&mut job, Event::Start), Action::ListProcesses);
    for _ in 0..50 {
        assert_eq!(
            hide_rezygisk(&mut job, Event::Processes(Ok(vec![b("zygote"), b("com.android.shel")]))),
            Action::Sleep { millis: 1000 }
        );
        assert_eq!(job.phase, HidePhase::Napping);
        assert_eq!(hide_rezygisk(&mut job, Event::Done(Ok(()))), Action::ListProcesses);
    }
    assert_eq!(
        hide_rezygisk(
            &mut job,
            Event::Processes(Ok(vec![b("x"), b("--nice-name=com.android.shell")]))
        ),
        Action::Fs(FsOp::Stat { path: b("/data/adb/modules/rezygisk/module.prop") })
    );
}

#[test]
fn busy_mount_is_given_up_after_the_ceiling() {
    let mut fs = installed();
    let run = drive(&mut fs, 0, usize::MAX);
    assert_eq!(run.result, Ok(()));
    assert_eq!(run.detaches, 200);
    assert_eq!(run.slept, 19900);
    assert!(run.slept <= 20000);
    assert_eq!(
        run.asked.last(),
        Some(&Action::Fs(FsOp::RemoveDirAll { path: b("/data/adb/modules/rezygisk") }))
    );
    assert_eq!(fs.kind(&b("/data/adb/modules/rezygisk")), PathKind::Absent);
    assert_eq!(fs.kind(&b("/data/adb/modules/rezygisk/module.prop")), PathKind::Absent);
}

#[test]
fn mount_that_frees_up_is_detached() {
    let mut fs = installed();
    let run = drive(&mut fs, 0, 3);
    assert_eq!(run.result, Ok(()));
    assert_eq!(run.detaches, 4);
    assert_eq!(run.slept, 300);
    assert_eq!(fs.kind(&b("/data/adb/modules/rezygisk")), PathKind::Absent);
}

#[test]
fn last_allowed_attempt_may_still_succeed() {
    let mut fs = installed();
    let run = drive(&mut fs, 0, 199);
    assert_eq!(run.result, Ok(()));
    assert_eq!(run.detaches, 200);
    assert_eq!(run.slept, 19900);
}

#[test]
fn no_property_file_no_detaching() {
    let mut fs = MemFs::new();
    fs.put_dir(&b("/data/adb/modules/rezygisk"));
    let run = drive(&mut fs, 0, usize::MAX);
    assert_eq!(run.result, Ok(()));
    assert_eq!(run.detaches, 0);
    assert_eq!(fs.kind(&b("/data/adb/modules/rezygisk")), PathKind::Absent);
}

#[test]
fn no_module_nothing_to_remove() {
    let mut fs = MemFs::new();
    fs.put_file(&b("/data/local/tmp/rezygisk"), &Vec::new(), 0o644);
    let run = drive(&mut fs, 1, 0);
    assert_eq!(run.result, Ok(()));
    assert_eq!(
        run.asked.last(),
        Some(&Action::Fs(FsOp::Stat { path: b("/data/adb/modules/rezygisk") }))
    );
    assert_eq!(fs.kind(&b("/data/local/tmp/rezygisk")), PathKind::File);
}

#[test]
fn unreadable_process_table_ends_the_concealment() {
    let mut job = Hide::new(&cfg());
    hide_rezygisk(&mut job, Event::Start);
    assert_eq!(
        hide_rezygisk(&mut job, Event::Processes(Err(IoError { code: 13 }))),
        Action::Finish(Err(IoError { code: 13 }))
    );
    assert!(job.is_done());
}

#[test]
fn failure_to_remove_the_module_is_surfaced() {
    let mut job = Hide::new(&cfg());
    hide_rezygisk(&mut job, Event::Start);
    hide_rezygisk(&mut job, Event::Processes(Ok(vec![b("com.android.shell")])));
    hide_rezygisk(&mut job, Event::Kind(PathKind::Absent));
    assert_eq!(job.phase, HidePhase::ProbeModule);
    assert_eq!(
        hide_rezygisk(&mut job, Event::Kind(PathKind::Dir)),
        Action::Fs(FsOp::RemoveDirAll { path: b("/data/adb/modules/rezygisk") })
    );
    assert_eq!(
        hide_rezygisk(&mut job, Event::Done(Err(IoError { code: 39 }))),
        Action::Finish(Err(IoError { code: 39 }))
    );
}

#[test]
fn failed_attempts_are_charged() {
    let mut job = Hide::new(&cfg());
    hide_rezygisk(&mut job, Event::Start);
    hide_rezygisk(&mut job, Event::Processes(Ok(vec![b("com.android.shell")])));
    assert_eq!(
        hide_rezygisk(&mut job, Event::Kind(PathKind::File)),
        Action::Unmount { path: b("/data/adb/modules/rezygisk/module.prop") }
    );
    assert_eq!(
        hide_rezygisk(&mut job, Event::Done(Err(IoError { code: 16 }))),
        Action::Sleep { millis: 100 }
    );
    assert_eq!(job.spent, 100);
    assert_eq!(job.phase, HidePhase::Backoff);
    assert_eq!(
        hide_rezygisk(&mut job, Event::Done(Ok(()))),
        Action::Unmount { path: b("/data/adb/modules/rezygisk/module.prop") }
    );
    job.spent = 19900;
    assert_eq!(
        hide_rezygisk(&mut job, Event::Done(Err(IoError { code: 16 }))),
        Action::Fs(FsOp::Stat { path: b("/data/adb/modules/rezygisk") })
    );
    assert_eq!(job.spent, 19900);
}

#[test]
fn charge_never_overflows() {
    let mut job = Hide::new(&cfg());
    hide_rezygisk(&mut job, Event::Start);
    hide_rezygisk(&mut job, Event::Processes(Ok(vec![b("com.android.shell")])));
    hide_rezygisk(&mut job, Event::Kind(PathKind::File));
    job.spent = u32::MAX;
    assert_eq!(
        hide_rezygisk(&mut job, Event::Done(Err(IoError { code: 16 }))),
        Action::Fs(FsOp::Stat { path: b("/data/adb/modules/rezygisk") })
    );
}

#[test]
fn answer_out_of_turn_ends_the_concealment() {
    let mut job = Hide::new(&cfg());
    assert_eq!(
        hide_rezygisk(&mut job, Event::Done(Ok(()))),
        Action::Finish(Err(IoError { code: 71 }))
    );
    assert!(job.is_done());
    assert_eq!(hide_rezygisk(&mut job, Event::Start), Action::Finish(Err(IoError { code: 71 })));
}
