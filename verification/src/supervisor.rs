//! Supervision record of one renderer subprocess.
//!
//! The operating-system side of supervision (spawning, polling the child,
//! writing its input stream, killing and reaping it) happens outside the
//! library; every observation is handed in as a plain value, and this
//! record decides what it means.  Health moves only as `health_step_ok`
//! permits, the crash counter counts failed exits, and the stop plan
//! always ends by killing and reaping the child, so no process outlives
//! its record.

use vstd::prelude::*;

use crate::health::RendererHealth;
use crate::health::health_step_ok;
use crate::health::is_terminal;
use crate::protocol::RendererEvent;

verus! {

/// Grace period after spawn before a silent renderer counts as `Running`.
pub const HEALTH_GRACE_MILLIS: u64 = 2000;

/// Pause between the graceful stop command and the unconditional kill.
pub const STOP_GRACE_MILLIS: u64 = 100;

/// What a non-blocking status poll of the child reported.
#[derive(Debug, Clone, Copy, PartialEq, Eq, Structural)]
pub enum PollResult {
    /// The child is still alive.
    StillRunning,
    /// The child exited; `success` is its exit status.
    Exited { success: bool },
    /// The poll itself failed.
    PollError,
}

/// One step of the stop procedure, for the caller to carry out in order.
#[derive(Debug, Clone, Copy, PartialEq, Eq, Structural)]
pub enum StopStep {
    /// Send the graceful stop command on the child's input stream.
    SendStop,
    /// Sleep for the given number of milliseconds.
    WaitMillis(u64),
    /// Kill the child unconditionally.
    Kill,
    /// Reap the child's exit status so no zombie remains.
    Reap,
    /// Join the thread reading the child's output stream.
    JoinReader,
}

/// Supervision state of one renderer subprocess.
#[derive(Debug, Clone, Copy)]
pub struct RendererProcess {
    /// Whether the child is believed alive; cleared once an exit is seen.
    pub running: bool,
    /// Health state, advanced by events and polls.
    pub health: RendererHealth,
    /// Clock reading at spawn time, in milliseconds.
    pub started_at_millis: u64,
    /// How many failed exits this record has seen.
    pub crash_count: u32,
}

/// The stop procedure for a record: a live child is asked to stop, given
/// a short grace window, then unconditionally killed and reaped; the
/// reader thread is joined in every case.
pub open spec fn spec_stop_plan(p: RendererProcess) -> Seq<StopStep> {
    if p.running {
        seq![
            StopStep::SendStop,
            StopStep::WaitMillis(STOP_GRACE_MILLIS as u64),
            StopStep::Kill,
            StopStep::Reap,
            StopStep::JoinReader,
        ]
    } else {
        seq![StopStep::JoinReader]
    }
}

/// Meaning of one status poll at clock reading `now_millis`: a successful
/// exit stops the record, a failed exit or poll error crashes it and
/// counts, a child alive past the grace period advances `Starting` to
/// `Running`, and a record already stopped stays as it is.  A terminal
/// health state absorbs every observation.
pub open spec fn spec_poll(p: RendererProcess, result: PollResult, now_millis: u64) -> RendererProcess {
    if !p.running {
        p
    } else {
        match result {
            PollResult::StillRunning => {
                if p.health == RendererHealth::Starting && now_millis > p.started_at_millis
                    + HEALTH_GRACE_MILLIS {
                    RendererProcess { health: RendererHealth::Running, ..p }
                } else {
                    p
                }
            },
            PollResult::Exited { success: true } => {
                if is_terminal(p.health) {
                    RendererProcess { running: false, ..p }
                } else {
                    RendererProcess { running: false, health: RendererHealth::Stopped, ..p }
                }
            },
            _ => {
                if is_terminal(p.health) {
                    RendererProcess { running: false, ..p }
                } else {
                    RendererProcess {
                        running: false,
                        health: RendererHealth::Crashed,
                        crash_count: if p.crash_count < u32::MAX {
                            (p.crash_count + 1) as u32
                        } else {
                            p.crash_count
                        },
                        ..p
                    }
                }
            },
        }
    }
}

impl RendererProcess {
    /// A record that no longer believes its child alive is terminal, and
    /// a live record is never `Crashed`.
    pub open spec fn wf(self) -> bool {
        &&& (!self.running ==> is_terminal(self.health))
        &&& (self.running ==> self.health != RendererHealth::Crashed)
    }

    /// Fresh record for a child spawned at `now_millis`.
    pub fn new(now_millis: u64) -> (r: Self)
        ensures
            r.wf(),
            r.running,
            r.health == RendererHealth::Starting,
            r.started_at_millis == now_millis,
            r.crash_count == 0,
    {
        RendererProcess {
            running: true,
            health: RendererHealth::Starting,
            started_at_millis: now_millis,
            crash_count: 0,
        }
    }

    /// Apply one event read from the child's output stream.  Readiness and
    /// close reports advance health; error and preset reports change
    /// nothing here.  A terminal health state absorbs every event.
    pub fn apply_event(&mut self, event: &RendererEvent)
        requires
            old(self).wf(),
        ensures
            final(self).wf(),
            health_step_ok(old(self).health, final(self).health),
            final(self).running == old(self).running,
            final(self).started_at_millis == old(self).started_at_millis,
            final(self).crash_count == old(self).crash_count,
            event is Ready ==> final(self).health == (if is_terminal(old(self).health) {
                old(self).health
            } else {
                RendererHealth::Ready
            }),
            event is Closed ==> final(self).health == (if is_terminal(old(self).health) {
                old(self).health
            } else {
                RendererHealth::Stopped
            }),
            event is Error || event is PresetLoaded ==> final(self).health == old(self).health,
    {
        match event {
            RendererEvent::Ready => {
                if !matches!(self.health, RendererHealth::Crashed | RendererHealth::Stopped) {
                    self.health = RendererHealth::Ready;
                }
            },
            RendererEvent::Closed => {
                if !matches!(self.health, RendererHealth::Crashed | RendererHealth::Stopped) {
                    self.health = RendererHealth::Stopped;
                }
            },
            RendererEvent::Error { .. } => {},
            RendererEvent::PresetLoaded { .. } => {},
        }
    }

    /// Digest a non-blocking status poll taken at `now_millis`; the result
    /// says whether the child is still alive.  A successful exit stops the
    /// record, a failed exit or poll error crashes it and counts, and a
    /// child still alive past the grace period advances `Starting` to
    /// `Running`.
    pub fn poll(&mut self, result: PollResult, now_millis: u64) -> (alive: bool)
        requires
            old(self).wf(),
        ensures
            final(self).wf(),
            health_step_ok(old(self).health, final(self).health),
            *final(self) == spec_poll(*old(self), result, now_millis),
            alive == final(self).running,
    {
        if !self.running {
            return false;
        }
        match result {
            PollResult::StillRunning => {
                if matches!(self.health, RendererHealth::Starting) {
                    let elapsed: u64 = if now_millis >= self.started_at_millis {
                        now_millis - self.started_at_millis
                    } else {
                        0
                    };
                    if elapsed > HEALTH_GRACE_MILLIS {
                        self.health = RendererHealth::Running;
                    }
                }
                true
            },
            PollResult::Exited { success } => {
                self.running = false;
                if !matches!(self.health, RendererHealth::Crashed | RendererHealth::Stopped) {
                    if success {
                        self.health = RendererHealth::Stopped;
                    } else {
                        self.health = RendererHealth::Crashed;
                        if self.crash_count < u32::MAX {
                            self.crash_count = self.crash_count + 1;
                        }
                    }
                }
                false
            },
            PollResult::PollError => {
                self.running = false;
                if !matches!(self.health, RendererHealth::Crashed | RendererHealth::Stopped) {
                    self.health = RendererHealth::Crashed;
                    if self.crash_count < u32::MAX {
                        self.crash_count = self.crash_count + 1;
                    }
                }
                false
            },
        }
    }

    /// The steps the owner must carry out, in order, to stop the child.
    pub fn stop_plan(&self) -> (plan: Vec<StopStep>)
        ensures
            plan@ == spec_stop_plan(*self),
    {
        let mut plan: Vec<StopStep> = Vec::new();
        if self.running {
            plan.push(StopStep::SendStop);
            plan.push(StopStep::WaitMillis(STOP_GRACE_MILLIS));
            plan.push(StopStep::Kill);
            plan.push(StopStep::Reap);
            plan.push(StopStep::JoinReader);
            proof {
                assert(plan@ =~= spec_stop_plan(*self));
            }
        } else {
            plan.push(StopStep::JoinReader);
            proof {
                assert(plan@ =~= spec_stop_plan(*self));
            }
        }
        plan
    }

    /// Record that the stop procedure has run: the child is gone.
    pub fn mark_stopped(&mut self)
        requires
            old(self).wf(),
        ensures
            final(self).wf(),
            health_step_ok(old(self).health, final(self).health),
            !final(self).running,
            final(self).health == (if old(self).running {
                RendererHealth::Stopped
            } else {
                old(self).health
            }),
            final(self).started_at_millis == old(self).started_at_millis,
            final(self).crash_count == old(self).crash_count,
    {
        if self.running {
            self.running = false;
            self.health = RendererHealth::Stopped;
        }
    }

    /// Current health, for status reports.
    pub fn get_health(&self) -> (r: RendererHealth)
        ensures
            r == self.health,
    {
        self.health
    }

    /// Whole seconds since the child was spawned, by the clock reading
    /// `now_millis`.
    pub fn uptime_secs(&self, now_millis: u64) -> (r: u64)
        ensures
            now_millis >= self.started_at_millis ==> r == (now_millis
                - self.started_at_millis) / 1000,
            now_millis < self.started_at_millis ==> r == 0,
    {
        if now_millis >= self.started_at_millis {
            (now_millis - self.started_at_millis) / 1000
        } else {
            0
        }
    }
}

/// Stopping a live record always reaps the child: the plan holds an
/// unconditional `Kill` directly followed by `Reap`, whatever the health
/// state, so no zombie survives the procedure.
pub proof fn lemma_stop_plan_always_reaps(p: RendererProcess)
    requires
        p.running,
    ensures
        spec_stop_plan(p).contains(StopStep::Kill),
        spec_stop_plan(p).contains(StopStep::Reap),
        exists|i: int|
            0 <= i && i + 1 < spec_stop_plan(p).len() && #[trigger] spec_stop_plan(p)[i]
                == StopStep::Kill && spec_stop_plan(p)[i + 1] == StopStep::Reap,
{
    let plan = spec_stop_plan(p);
    assert(plan[2] == StopStep::Kill);
    assert(plan[3] == StopStep::Reap);
    assert(plan.contains(StopStep::Kill));
    assert(plan.contains(StopStep::Reap));
    assert(0 <= 2 && 2 + 1 < plan.len() && plan[2] == StopStep::Kill && plan[3] == StopStep::Reap);
}

} // verus!
