//! The probe scheduler's logic: which configured tasks run, what a finished
//! command reports, and the life cycle of each task's loop.
use vstd::prelude::*;

use crate::larkbot::{Event, EventView};
use crate::text::{int_text, int_to_text, join, join_words};
use crate::time::{local_now, LocalDateTime};

verus! {

/// One configured probe.
#[derive(Clone, Debug)]
pub struct TaskConfig {
    /// Task identity; failures are reported under it.
    pub name: String,
    /// Seconds between ticks.
    pub duration: u64,
    /// Program followed by its arguments.
    pub cmd: Vec<String>,
}

/// A task runs only with a positive interval and a program plus at least
/// one argument.
pub open spec fn runnable(duration: u64, cmd_len: int) -> bool {
    duration > 0 && cmd_len >= 2
}

impl TaskConfig {
    pub open spec fn spec_runnable(&self) -> bool {
        runnable(self.duration, self.cmd@.len() as int)
    }

    /// Whether the scheduler starts a loop for the probe.
    pub fn is_runnable(&self) -> (r: bool)
        ensures
            r == self.spec_runnable(),
    {
        self.duration > 0 && self.cmd.len() >= 2
    }
}

/// The positions of the runnable tasks, in configuration order.
pub fn runnable_tasks(configs: &Vec<TaskConfig>) -> (r: Vec<usize>)
    ensures
        forall|k: int, l: int| 0 <= k < l < r@.len() ==> r@[k] < r@[l],
        forall|k: int| 0 <= k < r@.len() ==> r@[k] < configs@.len(),
        forall|i: int|
            0 <= i < configs@.len() ==> (r@.contains(i as usize) <==> configs@[i].spec_runnable()),
{
    let mut r: Vec<usize> = Vec::new();
    let mut i: usize = 0;
    while i < configs.len()
        invariant
            i <= configs.len(),
            forall|k: int, l: int| 0 <= k < l < r@.len() ==> r@[k] < r@[l],
            forall|k: int| 0 <= k < r@.len() ==> r@[k] < i,
            forall|j: int| 0 <= j < i ==> (r@.contains(j as usize) <==> configs@[j].spec_runnable()),
        decreases configs.len() - i,
    {
        let ghost before = r@;
        if configs[i].is_runnable() {
            r.push(i);
            proof {
                assert(r@.last() == i);
                assert forall|j: int| 0 <= j < i implies (#[trigger] r@.contains(j as usize)
                    <==> before.contains(j as usize)) by {
                    if r@.contains(j as usize) {
                        let k = choose|k: int| 0 <= k < r@.len() && r@[k] == j as usize;
                        if k < before.len() {
                            assert(before[k] == j as usize);
                        }
                    }
                    if before.contains(j as usize) {
                        let k = choose|k: int| 0 <= k < before.len() && before[k] == j as usize;
                        assert(r@[k] == j as usize);
                    }
                }
            }
        }
        proof {
            if !configs@[i as int].spec_runnable() {
                assert(!r@.contains(i));
            }
            assert(r@.contains(i) ==> configs@[i as int].spec_runnable());
        }
        i = i + 1;
    }
    r
}

/// A task whose command is shorter than a program and one argument never
/// has a loop started.
pub proof fn lemma_short_command_never_starts(configs: Seq<TaskConfig>, picked: Seq<usize>, i: int)
    requires
        0 <= i < configs.len(),
        configs[i].cmd@.len() < 2,
        forall|j: int|
            0 <= j < configs.len() ==> (picked.contains(j as usize) <==> configs[j].spec_runnable()),
    ensures
        !picked.contains(i as usize),
{
}

/// How one run of a probe's command ended.
pub enum CommandOutcome {
    /// The process ran to completion; `code` is absent when a signal ended it.
    Exited { code: Option<i32>, stderr: Vec<u8> },
    /// The process could not be started.
    LaunchFailed { error: String },
}

/// The program and its arguments when the command can be run: `None`,
/// and nothing is spawned, when it holds fewer than two elements.
pub fn spawn_parts(cmd: &Vec<String>) -> (r: Option<(String, Vec<String>)>)
    ensures
        r is None <==> cmd@.len() < 2,
        r matches Some(parts) ==> parts.0@ == cmd@[0]@ && cmd_view(parts.1@) == cmd_view(cmd@).skip(1),
{
    if cmd.len() < 2 {
        return None;
    }
    let program = cmd[0].clone();
    let mut args: Vec<String> = Vec::new();
    let mut i: usize = 1;
    while i < cmd.len()
        invariant
            1 <= i <= cmd.len(),
            args@.len() == i - 1,
            forall|k: int| 0 <= k < args@.len() ==> #[trigger] args@[k]@ == cmd@[k + 1]@,
        decreases cmd.len() - i,
    {
        let w = cmd[i].clone();
        args.push(w);
        i = i + 1;
    }
    assert(cmd_view(args@) =~= cmd_view(cmd@).skip(1));
    Some((program, args))
}

/// Fixed `user` of the events that report a command that could not start.
pub open spec fn executor_name() -> Seq<char> {
    "zipper"@
}

/// The exit code reported for a run; a run ended by a signal counts as -1.
pub open spec fn reported_code(code: Option<i32>) -> i32 {
    match code {
        Some(c) => c,
        None => -1i32,
    }
}

/// The event for a run that exited with `code` and wrote `text` to standard
/// error, or none when it exited with status 0.
pub open spec fn exit_event_view(
    name: Seq<char>,
    cmd: Seq<Seq<char>>,
    code: Option<i32>,
    text: Seq<char>,
    time: LocalDateTime,
) -> Option<EventView> {
    if code == Some(0i32) {
        None
    } else {
        Some(
            EventView {
                event: name,
                event_time: time,
                user: join_words(cmd, " "@),
                description: "probe result: code="@ + int_text(reported_code(code) as int)
                    + ", stderr="@ + text,
            },
        )
    }
}

/// The event for a command that could not be started.
pub open spec fn launch_event_view(name: Seq<char>, error: Seq<char>, time: LocalDateTime) -> EventView {
    EventView {
        event: name,
        event_time: time,
        user: executor_name(),
        description: "probe failed: err="@ + error,
    }
}

pub open spec fn cmd_view(cmd: Seq<String>) -> Seq<Seq<char>> {
    cmd.map_values(|w: String| w@)
}

/// Decoded standard-error text: what `String::from_utf8_lossy` makes of the bytes.
pub uninterp spec fn utf8_lossy(b: Seq<u8>) -> Seq<char>;

/// Relies on `String::from_utf8_lossy`: the text depends on the bytes alone,
/// invalid sequences are replaced rather than refused, and no bytes give no text.
#[verifier::external_body]
fn lossy_text(b: &Vec<u8>) -> (r: String)
    ensures
        r@ == utf8_lossy(b@),
        b@.len() == 0 ==> r@.len() == 0,
{
    String::from_utf8_lossy(b).into_owned()
}

/// The report of a run that exited with `code` and wrote `text` to standard error.
pub fn exit_event(name: &str, cmd: &Vec<String>, code: Option<i32>, text: &str, time: LocalDateTime) -> (r:
    Option<Event>)
    ensures
        r matches Some(e) ==> e@ == exit_event_view(name@, cmd_view(cmd@), code, text@, time)->0,
        r is None <==> exit_event_view(name@, cmd_view(cmd@), code, text@, time) is None,
{
    if code == Some(0i32) {
        return None;
    }
    let c: i32 = match code {
        Some(c) => c,
        None => -1,
    };
    let mut description = String::from_str("probe result: code=");
    let digits = int_to_text(c);
    description.append(digits.as_str());
    description.append(", stderr=");
    description.append(text);
    Some(Event { event: name.to_string(), event_time: time, user: join(cmd, " "), description })
}

/// The report of a command that could not be started.
pub fn launch_event(name: &str, error: &str, time: LocalDateTime) -> (r: Event)
    ensures
        r@ == launch_event_view(name@, error@, time),
{
    let mut description = String::from_str("probe failed: err=");
    description.append(error);
    Event { event: name.to_string(), event_time: time, user: String::from_str("zipper"), description }
}

/// The event to report for one run of `cmd`, stamped with `time`; none
/// when the command succeeded.
pub open spec fn outcome_event_view(
    name: Seq<char>,
    cmd: Seq<Seq<char>>,
    outcome: CommandOutcome,
    time: LocalDateTime,
) -> Option<EventView> {
    match outcome {
        CommandOutcome::Exited { code, stderr } => exit_event_view(
            name,
            cmd,
            code,
            utf8_lossy(stderr@),
            time,
        ),
        CommandOutcome::LaunchFailed { error } => Some(launch_event_view(name, error@, time)),
    }
}

/// The report of one run of the task's command, stamped with `time`.
pub fn command_event(name: &str, cmd: &Vec<String>, outcome: &CommandOutcome, time: LocalDateTime) -> (r:
    Option<Event>)
    ensures
        r is None <==> outcome_event_view(name@, cmd_view(cmd@), *outcome, time) is None,
        r matches Some(e) ==> e@ == outcome_event_view(name@, cmd_view(cmd@), *outcome, time)->0,
{
    match outcome {
        CommandOutcome::Exited { code, stderr } => {
            let text = lossy_text(stderr);
            exit_event(name, cmd, *code, text.as_str(), time)
        },
        CommandOutcome::LaunchFailed { error } => Some(launch_event(name, error.as_str(), time)),
    }
}

/// The report of one run of the task's command, stamped with the current
/// local time. A command of fewer than two elements is ignored; otherwise
/// there is none exactly when the command exited with status 0.
pub fn run_command(name: &str, cmd: &Vec<String>, outcome: &CommandOutcome) -> (r: Option<Event>)
    ensures
        cmd@.len() < 2 ==> r is None,
        cmd@.len() >= 2 ==> (r is None <==> (*outcome matches CommandOutcome::Exited { code, .. } && code
            == Some(0i32))),
        r matches Some(e) ==> e.wf() && Some(e@) == outcome_event_view(
            name@,
            cmd_view(cmd@),
            *outcome,
            e.event_time,
        ),
{
    if cmd.len() < 2 {
        return None;
    }
    let now = local_now();
    command_event(name, cmd, outcome, now)
}

/// A run that exits with status 0 reports nothing; any other exit reports
/// one event whose description holds the exact exit code.
pub proof fn lemma_exit_reports(
    name: Seq<char>,
    cmd: Seq<Seq<char>>,
    code: Option<i32>,
    text: Seq<char>,
    time: LocalDateTime,
)
    ensures
        code == Some(0i32) ==> exit_event_view(name, cmd, code, text, time) is None,
        code != Some(0i32) ==> {
            let d = exit_event_view(name, cmd, code, text, time)->0.description;
            &&& exit_event_view(name, cmd, code, text, time) is Some
            &&& d.subrange(19, 19 + int_text(reported_code(code) as int).len() as int)
                == int_text(reported_code(code) as int)
        },
{
    if code != Some(0i32) {
        let d = exit_event_view(name, cmd, code, text, time)->0.description;
        let t = int_text(reported_code(code) as int);
        reveal_strlit("probe result: code=");
        assert(d.subrange(19, 19 + t.len() as int) =~= t);
    }
}

} // verus!
