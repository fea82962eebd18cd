//! Renderer process health, a monotone state machine.
//!
//! A supervised renderer starts in `Starting`, is considered `Running`
//! after a grace period, and `Ready` once it reports readiness.  A failed
//! exit or a monitoring error leads to `Crashed`; a graceful exit or an
//! explicit stop leads to `Stopped`.  `Crashed` and `Stopped` are
//! terminal: no later observation revives the process record.

use vstd::prelude::*;

verus! {

/// Lifecycle state of one supervised renderer process.
#[derive(Debug, Clone, Copy, PartialEq, Eq, Structural)]
pub enum RendererHealth {
    /// Starting up, readiness not yet reported.
    Starting,
    /// Alive past the grace period, readiness not reported.
    Running,
    /// The process reported readiness itself.
    Ready,
    /// Exited with failure, or monitoring failed.
    Crashed,
    /// Exited gracefully or was stopped.
    Stopped,
}

/// States no transition may leave.
pub open spec fn is_terminal(h: RendererHealth) -> bool {
    h == RendererHealth::Crashed || h == RendererHealth::Stopped
}

/// Position on the forward path `Starting -> Running -> Ready`.
pub open spec fn progress_rank(h: RendererHealth) -> int {
    match h {
        RendererHealth::Starting => 0,
        RendererHealth::Running => 1,
        RendererHealth::Ready => 2,
        RendererHealth::Crashed => 3,
        RendererHealth::Stopped => 3,
    }
}

/// The transitions the supervisor may take: stand still, move forward
/// along `Starting -> Running -> Ready`, or fall into a terminal state
/// from anywhere that is not already terminal.
pub open spec fn health_step_ok(from: RendererHealth, to: RendererHealth) -> bool {
    to == from || (!is_terminal(from) && (progress_rank(from) < progress_rank(to) || is_terminal(
        to,
    )))
}

/// Health only moves forward: a step never lowers the progress rank.
pub proof fn lemma_health_monotone(from: RendererHealth, to: RendererHealth)
    requires
        health_step_ok(from, to),
    ensures
        progress_rank(from) <= progress_rank(to),
{
}

/// No transition exits a terminal state: once `Crashed` or `Stopped`,
/// every permitted step stays exactly there.
pub proof fn lemma_health_terminal_absorbs(from: RendererHealth, to: RendererHealth)
    requires
        is_terminal(from),
        health_step_ok(from, to),
    ensures
        to == from,
{
}

/// Permitted steps compose: two steps in a row are again a permitted step.
pub proof fn lemma_health_step_transitive(
    a: RendererHealth,
    b: RendererHealth,
    c: RendererHealth,
)
    requires
        health_step_ok(a, b),
        health_step_ok(b, c),
    ensures
        health_step_ok(a, c),
{
}

/// Human-readable label of a health state.
impl RendererHealth {
    pub fn label(&self) -> (r: &'static str)
        ensures
            self == RendererHealth::Starting ==> r@ == "starting"@,
            self == RendererHealth::Running ==> r@ == "running"@,
            self == RendererHealth::Ready ==> r@ == "ready"@,
            self == RendererHealth::Crashed ==> r@ == "crashed"@,
            self == RendererHealth::Stopped ==> r@ == "stopped"@,
    {
        match self {
            RendererHealth::Starting => "starting",
            RendererHealth::Running => "running",
            RendererHealth::Ready => "ready",
            RendererHealth::Crashed => "crashed",
            RendererHealth::Stopped => "stopped",
        }
    }
}

} // verus!
