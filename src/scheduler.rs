//! The life cycle of one probe task's loop: Idle until the process starts
//! it, Running while it ticks, Stopped for good once shutdown is observed.
use vstd::prelude::*;

use crate::probe::TaskConfig;

verus! {

#[derive(Clone, Copy, Debug, PartialEq, Eq, Structural)]
pub enum TaskState {
    Idle,
    Running,
    Stopped,
}

/// What the loop observed at a boundary between ticks.
#[derive(Clone, Copy, Debug, PartialEq, Eq, Structural)]
pub enum TaskSignal {
    /// The process starts its tasks.
    Start,
    /// The task's interval elapsed.
    Tick,
    /// The process-wide shutdown signal was raised.
    Shutdown,
}

/// What the loop does next.
#[derive(Clone, Copy, Debug, PartialEq, Eq, Structural)]
pub enum TaskAction {
    /// Wait for the next tick boundary.
    Wait,
    /// Run the command, report a failure, and only then come back.
    RunProbe,
    /// Leave the loop; the probe does nothing further.
    Finish,
}

/// The transition taken from `state` on `signal`, for a task whose
/// configuration is runnable or not.
pub open spec fn transition(state: TaskState, runnable: bool, signal: TaskSignal) -> (TaskState, TaskAction) {
    match state {
        TaskState::Idle => match signal {
            TaskSignal::Start => if runnable {
                (TaskState::Running, TaskAction::Wait)
            } else {
                (TaskState::Idle, TaskAction::Finish)
            },
            TaskSignal::Tick => (TaskState::Idle, TaskAction::Wait),
            TaskSignal::Shutdown => (TaskState::Stopped, TaskAction::Finish),
        },
        TaskState::Running => match signal {
            TaskSignal::Tick => (TaskState::Running, TaskAction::RunProbe),
            TaskSignal::Shutdown => (TaskState::Stopped, TaskAction::Finish),
            TaskSignal::Start => (TaskState::Running, TaskAction::Wait),
        },
        TaskState::Stopped => (TaskState::Stopped, TaskAction::Finish),
    }
}

/// The actions taken, one per signal, when `signals` arrive in order.
pub open spec fn actions(state: TaskState, runnable: bool, signals: Seq<TaskSignal>) -> Seq<TaskAction>
    decreases signals.len(),
{
    if signals.len() == 0 {
        Seq::empty()
    } else {
        let (next, act) = transition(state, runnable, signals[0]);
        seq![act] + actions(next, runnable, signals.drop_first())
    }
}

/// The state reached after `signals`.
pub open spec fn final_state(state: TaskState, runnable: bool, signals: Seq<TaskSignal>) -> TaskState
    decreases signals.len(),
{
    if signals.len() == 0 {
        state
    } else {
        final_state(transition(state, runnable, signals[0]).0, runnable, signals.drop_first())
    }
}

/// One task's loop state.
pub struct ProbeTask {
    state: TaskState,
    runnable: bool,
}

impl ProbeTask {
    pub closed spec fn spec_state(&self) -> TaskState {
        self.state
    }

    pub closed spec fn spec_runnable(&self) -> bool {
        self.runnable
    }

    /// A task for `config`, not yet started.
    pub fn new(config: &TaskConfig) -> (r: ProbeTask)
        ensures
            r.spec_state() == TaskState::Idle,
            r.spec_runnable() == config.spec_runnable(),
    {
        ProbeTask { state: TaskState::Idle, runnable: config.is_runnable() }
    }

    pub fn state(&self) -> (r: TaskState)
        ensures
            r == self.spec_state(),
    {
        self.state
    }

    /// Takes the transition for `signal` and says what the loop does next.
    pub fn step(&mut self, signal: TaskSignal) -> (r: TaskAction)
        ensures
            (final(self).spec_state(), r) == transition(old(self).spec_state(), old(self).spec_runnable(), signal),
            final(self).spec_runnable() == old(self).spec_runnable(),
    {
        let (next, act) = match self.state {
            TaskState::Idle => match signal {
                TaskSignal::Start => if self.runnable {
                    (TaskState::Running, TaskAction::Wait)
                } else {
                    (TaskState::Idle, TaskAction::Finish)
                },
                TaskSignal::Tick => (TaskState::Idle, TaskAction::Wait),
                TaskSignal::Shutdown => (TaskState::Stopped, TaskAction::Finish),
            },
            TaskState::Running => match signal {
                TaskSignal::Tick => (TaskState::Running, TaskAction::RunProbe),
                TaskSignal::Shutdown => (TaskState::Stopped, TaskAction::Finish),
                TaskSignal::Start => (TaskState::Running, TaskAction::Wait),
            },
            TaskState::Stopped => (TaskState::Stopped, TaskAction::Finish),
        };
        self.state = next;
        act
    }
}

/// A task that is not runnable (too short a command, no positive interval)
/// never runs its command, whatever signals arrive.
pub proof fn lemma_unrunnable_never_probes(state: TaskState, signals: Seq<TaskSignal>)
    requires
        state != TaskState::Running,
    ensures
        !actions(state, false, signals).contains(TaskAction::RunProbe),
    decreases signals.len(),
{
    if signals.len() > 0 {
        let (next, act) = transition(state, false, signals[0]);
        lemma_unrunnable_never_probes(next, signals.drop_first());
        let rest = actions(next, false, signals.drop_first());
        assert(actions(state, false, signals) == seq![act] + rest);
        if (seq![act] + rest).contains(TaskAction::RunProbe) {
            let k = choose|k: int| 0 <= k < (seq![act] + rest).len() && (seq![act] + rest)[k] == TaskAction::RunProbe;
            if k > 0 {
                assert(rest[k - 1] == TaskAction::RunProbe);
            }
        }
    }
}

/// A task made for a configuration whose command has fewer than two
/// elements never runs its command, whatever signals arrive.
pub proof fn lemma_short_command_never_probes(config: TaskConfig, signals: Seq<TaskSignal>)
    requires
        config.cmd@.len() < 2,
    ensures
        !actions(TaskState::Idle, config.spec_runnable(), signals).contains(TaskAction::RunProbe),
{
    lemma_unrunnable_never_probes(TaskState::Idle, signals);
}

/// Stopped is terminal: from it no signal starts another tick, and the
/// task stays Stopped.
pub proof fn lemma_stopped_is_terminal(runnable: bool, signals: Seq<TaskSignal>)
    ensures
        final_state(TaskState::Stopped, runnable, signals) == TaskState::Stopped,
        forall|k: int| 0 <= k < signals.len() ==> #[trigger] actions(TaskState::Stopped, runnable, signals)[k]
            == TaskAction::Finish,
        actions(TaskState::Stopped, runnable, signals).len() == signals.len(),
    decreases signals.len(),
{
    if signals.len() > 0 {
        lemma_stopped_is_terminal(runnable, signals.drop_first());
        let rest = actions(TaskState::Stopped, runnable, signals.drop_first());
        assert forall|k: int| 0 <= k < signals.len() implies #[trigger] actions(TaskState::Stopped, runnable, signals)[k]
            == TaskAction::Finish by {
            if k > 0 {
                assert(rest[k - 1] == TaskAction::Finish);
            }
        }
    }
}

/// A shutdown observed while Running ends the loop at once: the command
/// that was in flight has already finished, and no further tick runs.
pub proof fn lemma_shutdown_stops_running(runnable: bool, signals: Seq<TaskSignal>)
    requires
        signals.len() > 0,
        signals[0] == TaskSignal::Shutdown,
    ensures
        final_state(TaskState::Running, runnable, signals) == TaskState::Stopped,
        !actions(TaskState::Running, runnable, signals).contains(TaskAction::RunProbe),
{
    lemma_stopped_is_terminal(runnable, signals.drop_first());
    let rest = actions(TaskState::Stopped, runnable, signals.drop_first());
    let all = actions(TaskState::Running, runnable, signals);
    assert(all == seq![TaskAction::Finish] + rest);
    if all.contains(TaskAction::RunProbe) {
        let k = choose|k: int| 0 <= k < all.len() && all[k] == TaskAction::RunProbe;
        if k > 0 {
            assert(rest[k - 1] == TaskAction::Finish);
        }
    }
}

} // verus!
