use zipper::probe::{spawn_parts, command_event, exit_event, launch_event, run_command, runnable_tasks, CommandOutcome, TaskConfig};
use zipper::scheduler::{ProbeTask, TaskAction, TaskSignal, TaskState};
use zipper::time::LocalDateTime;

fn cfg(name: &str, duration: u64, cmd: &[&str]) -> TaskConfig {
    TaskConfig { name: name.to_string(), duration, cmd: cmd.iter().map(|s| s.to_string()).collect() }
}

fn noon() -> LocalDateTime {
    LocalDateTime {
        year: 2023,
        month: 2,
        day: 16,
        hour: 12,
        minute: 0,
        second: 0,
        nanosecond: 0,
        offset_seconds: 0,
    }
}

fn words(cmd: &[&str]) -> Vec<String> {
    cmd.iter().map(|s| s.to_string()).collect()
}

#[test]
fn short_commands_are_skipped() {
    let configs = vec![
        cfg("disk", 5, &["df", "-h"]),
        cfg("bad", 1, &["false"]),
        cfg("empty", 1, &[]),
        cfg("zero", 0, &["ls", "/"]),
        cfg("net", 3, &["ping", "-c", "1", "127.0.0.1"]),
    ];
    assert_eq!(runnable_tasks(&configs), vec![0, 4]);
    assert!(!configs[1].is_runnable());
    assert!(runnable_tasks(&vec![]).is_empty());
}

#[test]
fn short_command_task_never_probes() {
    let mut task = ProbeTask::new(&cfg("bad", 1, &["false"]));
    assert_eq!(task.step(TaskSignal::Start), TaskAction::Finish);
    assert_eq!(task.state(), TaskState::Idle);
    for _ in 0..3 {
        assert_ne!(task.step(TaskSignal::Tick), TaskAction::RunProbe);
    }
}

#[test]
fn success_reports_nothing() {
    let cmd = words(&["df", "-h"]);
    assert!(exit_event("disk", &cmd, Some(0), "", noon()).is_none());
    let ok = CommandOutcome::Exited { code: Some(0), stderr: b"warning".to_vec() };
    assert!(command_event("disk", &cmd, &ok, noon()).is_none());
    assert!(run_command("disk", &cmd, &ok).is_none());
}

#[test]
fn disk_task_ticks_without_dispatch() {
    let config = cfg("disk", 5, &["df", "-h"]);
    let mut task = ProbeTask::new(&config);
    assert_eq!(task.step(TaskSignal::Start), TaskAction::Wait);
    let mut dispatched = 0;
    let mut probes = 0;
    for _ in 0..10 {
        if task.step(TaskSignal::Tick) == TaskAction::RunProbe {
            probes += 1;
            let outcome = CommandOutcome::Exited { code: Some(0), stderr: Vec::new() };
            if command_event(&config.name, &config.cmd, &outcome, noon()).is_some() {
                dispatched += 1;
            }
        }
    }
    assert_eq!(probes, 10);
    assert_eq!(dispatched, 0);
}

#[test]
fn nonzero_exit_reports_code() {
    let cmd = words(&["df", "-h"]);
    let e = exit_event("disk", &cmd, Some(2), "no such disk", noon()).unwrap();
    assert_eq!(e.event, "disk");
    assert_eq!(e.user, "df -h");
    assert_eq!(e.description, "probe result: code=2, stderr=no such disk");
    assert_eq!(e.event_time, noon());
    let e = exit_event("disk", &cmd, Some(-3), "", noon()).unwrap();
    assert_eq!(e.description, "probe result: code=-3, stderr=");
    let killed = exit_event("disk", &cmd, None, "", noon()).unwrap();
    assert_eq!(killed.description, "probe result: code=-1, stderr=");
}

#[test]
fn bad_command_three_failures() {
    let cmd = words(&["false"]);
    let mut events = Vec::new();
    for _ in 0..3 {
        let outcome = CommandOutcome::Exited { code: Some(1), stderr: Vec::new() };
        if let Some(e) = command_event("bad", &cmd, &outcome, noon()) {
            events.push(e);
        }
    }
    assert_eq!(events.len(), 3);
    for e in &events {
        assert_eq!(e.user, "false");
        assert_eq!(e.event, "bad");
        assert_eq!(e.description, "probe result: code=1, stderr=");
    }
}

#[test]
fn stderr_is_decoded_lossily() {
    let cmd = words(&["cat", "x"]);
    let outcome = CommandOutcome::Exited { code: Some(1), stderr: vec![b'o', 0xff, b'k'] };
    let e = command_event("bytes", &cmd, &outcome, noon()).unwrap();
    assert_eq!(e.description, "probe result: code=1, stderr=o\u{fffd}k");
    let outcome = CommandOutcome::Exited { code: Some(1), stderr: b"cat: x: No such file".to_vec() };
    let e = command_event("bytes", &cmd, &outcome, noon()).unwrap();
    assert_eq!(e.description, "probe result: code=1, stderr=cat: x: No such file");
}

#[test]
fn launch_failure_is_reported() {
    let e = launch_event("gone", "No such file or directory (os error 2)", noon());
    assert_eq!(e.event, "gone");
    assert_eq!(e.user, "zipper");
    assert_eq!(e.description, "probe failed: err=No such file or directory (os error 2)");
    let cmd = words(&["nonexistent", "-x"]);
    let outcome = CommandOutcome::LaunchFailed { error: "denied".to_string() };
    let e = command_event("gone", &cmd, &outcome, noon()).unwrap();
    assert_eq!(e.description, "probe failed: err=denied");
    let e = run_command("gone", &cmd, &outcome).unwrap();
    assert_eq!(e.user, "zipper");
    assert!(e.event_time.is_valid());
}

#[test]
fn shutdown_after_inflight_command() {
    let mut task = ProbeTask::new(&cfg("slow", 1, &["sleep", "10"]));
    assert_eq!(task.step(TaskSignal::Start), TaskAction::Wait);
    assert_eq!(task.step(TaskSignal::Tick), TaskAction::RunProbe);
    // the command and its report finish before the loop looks again
    let outcome = CommandOutcome::Exited { code: Some(1), stderr: Vec::new() };
    assert!(command_event("slow", &words(&["sleep", "10"]), &outcome, noon()).is_some());
    assert_eq!(task.step(TaskSignal::Shutdown), TaskAction::Finish);
    assert_eq!(task.state(), TaskState::Stopped);
    assert_eq!(task.step(TaskSignal::Tick), TaskAction::Finish);
    assert_eq!(task.step(TaskSignal::Start), TaskAction::Finish);
    assert_eq!(task.state(), TaskState::Stopped);
}

#[test]
fn short_commands_spawn_nothing() {
    assert!(spawn_parts(&words(&[])).is_none());
    assert!(spawn_parts(&words(&["false"])).is_none());
    let (program, args) = spawn_parts(&words(&["df", "-h"])).unwrap();
    assert_eq!(program, "df");
    assert_eq!(args, words(&["-h"]));
    let (program, args) = spawn_parts(&words(&["ping", "-c", "1", "127.0.0.1"])).unwrap();
    assert_eq!(program, "ping");
    assert_eq!(args, words(&["-c", "1", "127.0.0.1"]));
}

#[test]
fn run_command_ignores_short_commands() {
    let failed = CommandOutcome::Exited { code: Some(1), stderr: Vec::new() };
    assert!(run_command("bad", &words(&["false"]), &failed).is_none());
    assert!(run_command("bad", &words(&[]), &failed).is_none());
    let e = run_command("bad", &words(&["false", "x"]), &failed).unwrap();
    assert_eq!(e.user, "false x");
    assert_eq!(e.event, "bad");
}
