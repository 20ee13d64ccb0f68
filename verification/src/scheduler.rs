//! The polling scheduler's decisions: one tick turns a fetch outcome into a
//! publish action or a skip, and never changes the scheduler's state, so no
//! failure on one tick can reach the next.

use crate::solaredge::FetchError;
use crate::solaredge::SiteCurrentPowerFlow;
use crate::state::derived_state;
use crate::state::State;
use vstd::prelude::*;

verus! {

/// Where the scheduler stands: before the first tick, or in the steady
/// polling loop.
#[derive(Debug, Clone, Copy, PartialEq, Eq, Structural)]
pub enum SchedulerPhase {
    /// Discovery has not been published yet; no tick runs.
    Idle,
    /// The fixed-interval loop is running.
    Polling,
}

/// The fixed-interval polling scheduler.
#[derive(Debug, Clone, Copy, PartialEq, Eq, Structural)]
pub struct Scheduler {
    pub phase: SchedulerPhase,
}

/// What one tick asks its caller to do.
#[derive(Debug, Clone, Copy, PartialEq, Eq, Structural)]
pub enum TickAction {
    /// The fetch failed: publish nothing, wait for the next tick.
    Skip,
    /// The fetch succeeded: publish this derived state.
    Publish(State),
}

/// The action one tick takes, as a function of its own fetch outcome alone:
/// no history enters into it.
pub open spec fn spec_tick_action(fetch: Result<SiteCurrentPowerFlow, FetchError>) -> TickAction {
    match fetch {
        Ok(snapshot) => TickAction::Publish(derived_state(snapshot)),
        Err(_) => TickAction::Skip,
    }
}

impl Scheduler {
    /// A scheduler that has not started polling.
    pub fn new() -> (s: Scheduler)
        ensures
            s.phase == SchedulerPhase::Idle,
    {
        Scheduler { phase: SchedulerPhase::Idle }
    }

    /// The one transition out of `Idle`, taken once discovery has been
    /// published.
    pub fn start_polling(&mut self)
        requires
            old(self).phase == SchedulerPhase::Idle,
        ensures
            final(self).phase == SchedulerPhase::Polling,
    {
        self.phase = SchedulerPhase::Polling;
    }

    /// One tick: derives and asks to publish on a successful fetch, skips on
    /// a failed one. The scheduler itself is left exactly as it was, so the
    /// next tick runs whatever this one did.
    pub fn on_tick(&mut self, fetch: Result<SiteCurrentPowerFlow, FetchError>) -> (a: TickAction)
        requires
            old(self).phase == SchedulerPhase::Polling,
            fetch matches Ok(snapshot) ==> snapshot.well_formed(),
        ensures
            *final(self) == *old(self),
            a == spec_tick_action(fetch),
    {
        match fetch {
            Ok(snapshot) => TickAction::Publish(crate::state::generate_state_message(snapshot)),
            Err(_) => TickAction::Skip,
        }
    }
}

/// Tick isolation: a fetch failure on one tick leaves the scheduler in the
/// polling phase with its state untouched, so the next tick still fetches,
/// and its action depends only on its own fetch outcome.
pub proof fn lemma_tick_isolation(
    before: Scheduler,
    after: Scheduler,
    next_fetch: Result<SiteCurrentPowerFlow, FetchError>,
)
    requires
        before.phase == SchedulerPhase::Polling,
        after == before,
    ensures
        after.phase == SchedulerPhase::Polling,
        spec_tick_action(next_fetch) == (match next_fetch {
            Ok(snapshot) => TickAction::Publish(derived_state(snapshot)),
            Err(_) => TickAction::Skip,
        }),
{
}

} // verus!
