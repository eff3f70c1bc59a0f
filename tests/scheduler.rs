use krakker::scheduler::{step, WorkerCommand, WorkerEvent, WorkerPhase};

#[test]
fn cancellation_during_sleep_stops_before_next_pass() {
    let (phase, command) = step(WorkerPhase::Sleeping, WorkerEvent::Cancelled);
    assert_eq!(phase, WorkerPhase::Stopped);
    assert_eq!(command, WorkerCommand::Exit);
    let (phase, command) = step(phase, WorkerEvent::Woke { cancelled: false });
    assert_eq!((phase, command), (WorkerPhase::Stopped, WorkerCommand::Exit));
    let (phase, command) = step(phase, WorkerEvent::Start { cancelled: false });
    assert_eq!((phase, command), (WorkerPhase::Stopped, WorkerCommand::Exit));
}

#[test]
fn worker_runs_passes_until_cancelled() {
    let mut phase = WorkerPhase::Idle;
    let mut commands = Vec::new();
    let events = [
        WorkerEvent::Start { cancelled: false },
        WorkerEvent::PassDone,
        WorkerEvent::Woke { cancelled: false },
        WorkerEvent::PassDone,
        WorkerEvent::Cancelled,
    ];
    for e in events {
        let (next, command) = step(phase, e);
        phase = next;
        commands.push(command);
    }
    assert_eq!(
        commands,
        vec![
            WorkerCommand::RunPass,
            WorkerCommand::Sleep,
            WorkerCommand::RunPass,
            WorkerCommand::Sleep,
            WorkerCommand::Exit,
        ]
    );
    assert_eq!(phase, WorkerPhase::Stopped);
}

#[test]
fn cancelled_before_start_runs_no_pass() {
    assert_eq!(
        step(WorkerPhase::Idle, WorkerEvent::Start { cancelled: true }),
        (WorkerPhase::Stopped, WorkerCommand::Exit)
    );
}

#[test]
fn cancellation_seen_at_wake_stops() {
    assert_eq!(
        step(WorkerPhase::Sleeping, WorkerEvent::Woke { cancelled: true }),
        (WorkerPhase::Stopped, WorkerCommand::Exit)
    );
}

#[test]
fn cancellation_during_pass_waits_for_its_end() {
    assert_eq!(
        step(WorkerPhase::Running, WorkerEvent::Cancelled),
        (WorkerPhase::Running, WorkerCommand::Continue)
    );
    assert_eq!(
        step(WorkerPhase::Running, WorkerEvent::PassDone),
        (WorkerPhase::Sleeping, WorkerCommand::Sleep)
    );
}
