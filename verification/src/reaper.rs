//! The cleanup of a child that overran its limits.
//!
//! The caller has its error by the time a reaper starts, and never hears of
//! it again. The reaper waits a grace period for the child's end and then
//! ends the child by force.

use vstd::prelude::*;

verus! {

/// How many seconds a reaper waits for the child's end before it kills it.
pub const GRACE_SECONDS: u64 = 3;

/// How far the cleanup of one child has come.
#[derive(Clone, Copy, Debug, PartialEq, Eq, Structural)]
pub enum Reaping {
    /// The reaper waits for the child's end, for the grace period at most.
    AwaitingGrace,
    /// The grace period is over and the kill is under way.
    Killing,
    /// The child ended by itself, or was lost sight of.
    Exited,
    /// The child was told to end by force.
    ForciblyKilled,
}

/// What the driver reports to the reaper.
#[derive(Clone, Copy, Debug, PartialEq, Eq, Structural)]
pub enum ReapEvent {
    /// The child ended within the grace period.
    Exited,
    /// Waiting for the child failed.
    WaitFailed,
    /// The grace period passed and the child still runs.
    GraceElapsed,
    /// The kill was carried out, or failed; either way it is not repeated.
    KillDone { killed: bool },
}

/// What the driver is to do next, besides writing to its log.
#[derive(Clone, Copy, Debug, PartialEq, Eq, Structural)]
pub enum ReapAction {
    /// Wait for the child's end, for this many seconds at most.
    Wait { seconds: u64 },
    /// End the child by force.
    Kill,
    /// Nothing is left to do.
    Done,
}

impl Reaping {
    /// Whether the cleanup is over.
    pub open spec fn spec_is_over(self) -> bool {
        self == Reaping::Exited || self == Reaping::ForciblyKilled
    }

    /// Where the cleanup goes on `event`, and what is to be done; `None` for
    /// an event that does not belong to the state.
    pub open spec fn spec_step(self, event: ReapEvent) -> Option<(Reaping, ReapAction)> {
        match (self, event) {
            (Reaping::AwaitingGrace, ReapEvent::Exited) => Some(
                (Reaping::Exited, ReapAction::Done),
            ),
            (Reaping::AwaitingGrace, ReapEvent::WaitFailed) => Some(
                (Reaping::Exited, ReapAction::Done),
            ),
            (Reaping::AwaitingGrace, ReapEvent::GraceElapsed) => Some(
                (Reaping::Killing, ReapAction::Kill),
            ),
            (Reaping::Killing, ReapEvent::KillDone { .. }) => Some(
                (Reaping::ForciblyKilled, ReapAction::Done),
            ),
            _ => None,
        }
    }

    /// Starts the cleanup of a child: wait for its end, for the grace period.
    pub fn start() -> (first: (Reaping, ReapAction))
        ensures
            first == (Reaping::AwaitingGrace, ReapAction::Wait { seconds: GRACE_SECONDS }),
    {
        (Reaping::AwaitingGrace, ReapAction::Wait { seconds: GRACE_SECONDS })
    }

    /// Whether the cleanup is over.
    #[verifier::when_used_as_spec(spec_is_over)]
    pub fn is_over(self) -> (over: bool)
        ensures
            over == self.spec_is_over(),
    {
        match self {
            Reaping::Exited => true,
            Reaping::ForciblyKilled => true,
            _ => false,
        }
    }

    /// Takes the cleanup one step further.
    pub fn step(self, event: ReapEvent) -> (next: Option<(Reaping, ReapAction)>)
        ensures
            next == self.spec_step(event),
    {
        match self {
            Reaping::AwaitingGrace => match event {
                ReapEvent::Exited => Some((Reaping::Exited, ReapAction::Done)),
                ReapEvent::WaitFailed => Some((Reaping::Exited, ReapAction::Done)),
                ReapEvent::GraceElapsed => Some((Reaping::Killing, ReapAction::Kill)),
                ReapEvent::KillDone { .. } => None,
            },
            Reaping::Killing => match event {
                ReapEvent::KillDone { .. } => Some((Reaping::ForciblyKilled, ReapAction::Done)),
                _ => None,
            },
            _ => None,
        }
    }
}

/// A child that still runs when the grace period is over is killed, and a
/// child is killed for no other reason.
pub proof fn lemma_kill_after_grace(state: Reaping, event: ReapEvent)
    ensures
        (state.spec_step(event) matches Some((_, action)) && action == ReapAction::Kill) <==> (
        state == Reaping::AwaitingGrace && event == ReapEvent::GraceElapsed),
{
}

/// The cleanup waits once and kills once at most: no step asks to wait
/// again, a kill is followed by the end whether it worked or not, and once
/// the cleanup is over no event moves it.
pub proof fn lemma_reaping_ends(state: Reaping, event: ReapEvent)
    ensures
        state.spec_step(event) matches Some((next, action)) ==> {
            &&& !(action is Wait)
            &&& !state.spec_is_over()
            &&& (next.spec_is_over() <==> action == ReapAction::Done)
            &&& (state == Reaping::Killing ==> next == Reaping::ForciblyKilled)
        },
        state.spec_is_over() ==> state.spec_step(event) is None,
{
}

} // verus!
