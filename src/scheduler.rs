//! The lifecycle of the reconciliation worker: passes at a fixed interval
//! until cancellation.
//!
//! The caller performs each command and reports what happened as an event:
//! the cancellation flag seen at the checkpoint before a pass, the end of a
//! pass, the end of the sleep, or cancellation raised during the sleep.
//! Errors are no events: a failed pass is followed by the sleep like any
//! other, and the next tick retries.

use vstd::prelude::*;

verus! {

/// Where the worker stands.
#[derive(Debug, Clone, Copy, PartialEq, Eq, Structural)]
pub enum WorkerPhase {
    Idle,
    Running,
    Sleeping,
    Stopped,
}

/// What the caller reports.
#[derive(Debug, Clone, Copy, PartialEq, Eq, Structural)]
pub enum WorkerEvent {
    /// The worker is started; `cancelled` is the flag at that moment.
    Start { cancelled: bool },
    /// A pass has ended, whether or not it failed.
    PassDone,
    /// The sleep has run its full interval; `cancelled` is the flag then.
    Woke { cancelled: bool },
    /// Cancellation was raised while the worker slept.
    Cancelled,
}

/// What the caller is to do.
#[derive(Debug, Clone, Copy, PartialEq, Eq, Structural)]
pub enum WorkerCommand {
    /// Run one reconciliation pass, then report `PassDone`.
    RunPass,
    /// Sleep for the interval, waking early on cancellation.
    Sleep,
    /// Stop for good.
    Exit,
    /// Go on with the command in progress: the event does not concern the
    /// current phase.
    Continue,
}

/// The checkpoint before a pass.
pub open spec fn checkpoint(cancelled: bool) -> (WorkerPhase, WorkerCommand) {
    if cancelled {
        (WorkerPhase::Stopped, WorkerCommand::Exit)
    } else {
        (WorkerPhase::Running, WorkerCommand::RunPass)
    }
}

/// The worker's transition on an event.
pub open spec fn transition(phase: WorkerPhase, event: WorkerEvent) -> (WorkerPhase, WorkerCommand) {
    match (phase, event) {
        (WorkerPhase::Stopped, _) => (WorkerPhase::Stopped, WorkerCommand::Exit),
        (WorkerPhase::Idle, WorkerEvent::Start { cancelled }) => checkpoint(cancelled),
        (WorkerPhase::Running, WorkerEvent::PassDone) => (WorkerPhase::Sleeping, WorkerCommand::Sleep),
        (WorkerPhase::Sleeping, WorkerEvent::Woke { cancelled }) => checkpoint(cancelled),
        (WorkerPhase::Sleeping, WorkerEvent::Cancelled) => (WorkerPhase::Stopped, WorkerCommand::Exit),
        (WorkerPhase::Idle, WorkerEvent::Cancelled) => (WorkerPhase::Stopped, WorkerCommand::Exit),
        _ => (phase, WorkerCommand::Continue),
    }
}

/// The worker's transition on an event.
pub fn step(phase: WorkerPhase, event: WorkerEvent) -> (r: (WorkerPhase, WorkerCommand))
    ensures
        r == transition(phase, event),
        r.0 == WorkerPhase::Stopped ==> phase == WorkerPhase::Stopped || event
            == WorkerEvent::Cancelled || event == (WorkerEvent::Start { cancelled: true })
            || event == (WorkerEvent::Woke { cancelled: true }),
        r.1 == WorkerCommand::RunPass ==> phase != WorkerPhase::Stopped,
{
    match phase {
        WorkerPhase::Stopped => (WorkerPhase::Stopped, WorkerCommand::Exit),
        WorkerPhase::Idle => match event {
            WorkerEvent::Start { cancelled } => if cancelled {
                (WorkerPhase::Stopped, WorkerCommand::Exit)
            } else {
                (WorkerPhase::Running, WorkerCommand::RunPass)
            },
            WorkerEvent::Cancelled => (WorkerPhase::Stopped, WorkerCommand::Exit),
            _ => (phase, WorkerCommand::Continue),
        },
        WorkerPhase::Running => match event {
            WorkerEvent::PassDone => (WorkerPhase::Sleeping, WorkerCommand::Sleep),
            _ => (phase, WorkerCommand::Continue),
        },
        WorkerPhase::Sleeping => match event {
            WorkerEvent::Woke { cancelled } => if cancelled {
                (WorkerPhase::Stopped, WorkerCommand::Exit)
            } else {
                (WorkerPhase::Running, WorkerCommand::RunPass)
            },
            WorkerEvent::Cancelled => (WorkerPhase::Stopped, WorkerCommand::Exit),
            _ => (phase, WorkerCommand::Continue),
        },
    }
}

/// The commands that a run of events produces, from `phase` on.
pub open spec fn commands(phase: WorkerPhase, events: Seq<WorkerEvent>) -> Seq<WorkerCommand>
    decreases events.len(),
{
    if events.len() == 0 {
        Seq::empty()
    } else {
        let (next, command) = transition(phase, events[0]);
        seq![command] + commands(next, events.skip(1))
    }
}

proof fn lemma_commands_len(phase: WorkerPhase, events: Seq<WorkerEvent>)
    ensures
        commands(phase, events).len() == events.len(),
    decreases events.len(),
{
    if events.len() > 0 {
        lemma_commands_len(transition(phase, events[0]).0, events.skip(1));
    }
}

/// Once stopped, the worker only ever exits.
pub proof fn stopped_is_final(events: Seq<WorkerEvent>)
    ensures
        forall|k: int|
            0 <= k < events.len() ==> #[trigger] commands(WorkerPhase::Stopped, events)[k]
                == WorkerCommand::Exit,
    decreases events.len(),
{
    if events.len() > 0 {
        stopped_is_final(events.skip(1));
        lemma_commands_len(WorkerPhase::Stopped, events.skip(1));
        let c = commands(WorkerPhase::Stopped, events);
        assert forall|k: int| 0 <= k < events.len() implies #[trigger] c[k] == WorkerCommand::Exit by {
            if k > 0 {
                assert(c[k] == commands(WorkerPhase::Stopped, events.skip(1))[k - 1]);
            }
        }
    }
}

/// Cancellation raised during the sleep stops the worker at once, whatever
/// was left of the interval, and no pass begins after it, whatever happens
/// next.
pub proof fn cancelled_sleep_runs_no_more_passes(later: Seq<WorkerEvent>)
    ensures
        transition(WorkerPhase::Sleeping, WorkerEvent::Cancelled) == (
            WorkerPhase::Stopped,
            WorkerCommand::Exit,
        ),
        forall|k: int|
            0 <= k < later.len() + 1 ==> #[trigger] commands(
                WorkerPhase::Sleeping,
                seq![WorkerEvent::Cancelled] + later,
            )[k] != WorkerCommand::RunPass,
{
    let events = seq![WorkerEvent::Cancelled] + later;
    assert(events.skip(1) =~= later);
    stopped_is_final(later);
    lemma_commands_len(WorkerPhase::Stopped, later);
    let c = commands(WorkerPhase::Sleeping, events);
    assert forall|k: int| 0 <= k < later.len() + 1 implies #[trigger] c[k] != WorkerCommand::RunPass by {
        if k > 0 {
            assert(c[k] == commands(WorkerPhase::Stopped, later)[k - 1]);
        }
    }
}

} // verus!
