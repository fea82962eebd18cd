//! Supervision records: health transitions, polling, the stop procedure.

use opendrop::health::RendererHealth;
use opendrop::protocol::RendererEvent;
use opendrop::supervisor::PollResult;
use opendrop::supervisor::RendererProcess;
use opendrop::supervisor::StopStep;

#[test]
fn health_moves_forward_only() {
    let mut p = RendererProcess::new(1000);
    assert_eq!(p.get_health(), RendererHealth::Starting);

    // Within the grace period the health stays at Starting.
    assert!(p.poll(PollResult::StillRunning, 2000));
    assert_eq!(p.get_health(), RendererHealth::Starting);

    // Past the grace period a silent renderer counts as Running.
    assert!(p.poll(PollResult::StillRunning, 3001));
    assert_eq!(p.get_health(), RendererHealth::Running);

    // The readiness event advances to Ready.
    p.apply_event(&RendererEvent::Ready);
    assert_eq!(p.get_health(), RendererHealth::Ready);

    // A graceful exit stops the record; nothing revives it.
    assert!(!p.poll(PollResult::Exited { success: true }, 4000));
    assert_eq!(p.get_health(), RendererHealth::Stopped);
    p.apply_event(&RendererEvent::Ready);
    assert_eq!(p.get_health(), RendererHealth::Stopped);
    assert!(!p.poll(PollResult::StillRunning, 5000));
    assert_eq!(p.get_health(), RendererHealth::Stopped);
}

#[test]
fn failed_exit_crashes_and_counts() {
    let mut p = RendererProcess::new(0);
    assert!(!p.poll(PollResult::Exited { success: false }, 100));
    assert_eq!(p.get_health(), RendererHealth::Crashed);
    assert_eq!(p.crash_count, 1);

    // A crashed record is terminal: later observations change nothing.
    p.apply_event(&RendererEvent::Closed);
    assert_eq!(p.get_health(), RendererHealth::Crashed);
    assert!(!p.poll(PollResult::Exited { success: true }, 200));
    assert_eq!(p.get_health(), RendererHealth::Crashed);
    assert_eq!(p.crash_count, 1);
}

#[test]
fn poll_error_counts_as_crash() {
    let mut p = RendererProcess::new(0);
    assert!(!p.poll(PollResult::PollError, 50));
    assert_eq!(p.get_health(), RendererHealth::Crashed);
    assert_eq!(p.crash_count, 1);
}

#[test]
fn closed_event_stops_gracefully() {
    let mut p = RendererProcess::new(0);
    p.apply_event(&RendererEvent::Closed);
    assert_eq!(p.get_health(), RendererHealth::Stopped);
    // Error and preset events never change health.
    p.apply_event(&RendererEvent::Error { message: String::from("boom") });
    assert_eq!(p.get_health(), RendererHealth::Stopped);
}

#[test]
fn stop_plan_always_kills_and_reaps() {
    let p = RendererProcess::new(0);
    let plan = p.stop_plan();
    assert_eq!(
        plan,
        vec![
            StopStep::SendStop,
            StopStep::WaitMillis(100),
            StopStep::Kill,
            StopStep::Reap,
            StopStep::JoinReader,
        ]
    );

    let mut q = RendererProcess::new(0);
    q.mark_stopped();
    assert!(!q.running);
    assert_eq!(q.get_health(), RendererHealth::Stopped);
    // A record already stopped only joins its reader.
    assert_eq!(q.stop_plan(), vec![StopStep::JoinReader]);
}

#[test]
fn uptime_counts_whole_seconds() {
    let p = RendererProcess::new(5000);
    assert_eq!(p.uptime_secs(7999), 2);
    assert_eq!(p.uptime_secs(5000), 0);
    assert_eq!(p.uptime_secs(1000), 0);
}
