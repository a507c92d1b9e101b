//! Shutting the network router down.
//!
//! The router is asked to stop and given a grace period. If it has not exited
//! when the period is over it is killed.

use crate::run_tests::types::NetworkRouter;
use vstd::prelude::*;

verus! {

/// Where the router process stands.
#[derive(Debug, Clone, Copy, PartialEq, Eq, Structural)]
pub enum RouterState {
    Running,
    /// The router was asked to stop and has the grace period to do so.
    Stopping,
    /// The grace period is over and the router was killed.
    Killed,
    /// The process has exited.
    Stopped,
}

/// What the caller reports of the router.
#[derive(Debug, Clone, Copy, PartialEq, Eq, Structural)]
pub enum RouterEvent {
    /// Someone asked for the router to shut down.
    ShutdownRequested,
    /// The process has exited.
    Exited,
    /// The grace period is over.
    GraceElapsed,
}

/// What the caller is to do next.
#[derive(Debug, Clone, Copy, PartialEq, Eq, Structural)]
pub enum RouterAction {
    /// Tell the process to stop, then wait for its exit for at most
    /// `grace_secs` seconds.
    Cancel { grace_secs: u64 },
    /// Kill the process and wait for its exit.
    Kill,
    /// Nothing.
    Nothing,
}

/// The router of one test.
#[derive(Debug, Clone, Copy, PartialEq, Eq, Structural)]
pub struct RouterManager {
    /// What the router was launched with. The manager hands it on unread.
    pub router: NetworkRouter,
    pub grace_secs: u64,
    pub state: RouterState,
}

impl RouterManager {
    /// The manager after `event`, and the action that the caller is to take.
    ///
    /// A request to shut down is honoured once, while the router runs. An exit
    /// is final whenever it comes. The router is killed only when the grace
    /// period ends while it is stopping.
    pub open spec fn step_spec(self, event: RouterEvent) -> (RouterManager, RouterAction) {
        match (self.state, event) {
            (RouterState::Running, RouterEvent::ShutdownRequested) => (
                self.at(RouterState::Stopping),
                RouterAction::Cancel { grace_secs: self.grace_secs },
            ),
            (RouterState::Stopping, RouterEvent::GraceElapsed) => (
                self.at(RouterState::Killed),
                RouterAction::Kill,
            ),
            (_, RouterEvent::Exited) => (self.at(RouterState::Stopped), RouterAction::Nothing),
            _ => (self, RouterAction::Nothing),
        }
    }

    /// The manager in another state.
    pub open spec fn at(self, state: RouterState) -> RouterManager {
        RouterManager { router: self.router, grace_secs: self.grace_secs, state }
    }

    /// The manager of a router that was launched with `router` and runs.
    pub fn new(router: NetworkRouter, grace_secs: u64) -> (manager: RouterManager)
        ensures
            manager == (RouterManager { router, grace_secs, state: RouterState::Running }),
    {
        RouterManager { router, grace_secs, state: RouterState::Running }
    }

    /// Takes `event` in and says what the caller is to do next.
    pub fn step(self, event: RouterEvent) -> (result: (RouterManager, RouterAction))
        ensures
            result == self.step_spec(event),
    {
        match (self.state, event) {
            (RouterState::Running, RouterEvent::ShutdownRequested) => (
                RouterManager {
                    router: self.router,
                    grace_secs: self.grace_secs,
                    state: RouterState::Stopping,
                },
                RouterAction::Cancel { grace_secs: self.grace_secs },
            ),
            (RouterState::Stopping, RouterEvent::GraceElapsed) => (
                RouterManager {
                    router: self.router,
                    grace_secs: self.grace_secs,
                    state: RouterState::Killed,
                },
                RouterAction::Kill,
            ),
            (_, RouterEvent::Exited) => (
                RouterManager {
                    router: self.router,
                    grace_secs: self.grace_secs,
                    state: RouterState::Stopped,
                },
                RouterAction::Nothing,
            ),
            _ => (self, RouterAction::Nothing),
        }
    }
}

/// The router is killed only when its grace period has run out after it was
/// asked to stop, and it is asked to stop only while it runs: a second
/// request, or one that comes after the exit, does nothing.
pub proof fn law_kill_only_after_grace(manager: RouterManager, event: RouterEvent)
    ensures
        manager.step_spec(event).1 is Kill ==> manager.state is Stopping && event is GraceElapsed,
        manager.step_spec(event).1 is Cancel ==> manager.state is Running
            && event is ShutdownRequested,
        manager.step_spec(event).0.router == manager.router,
{
}

/// A router that was asked to stop is stopped once its exit is reported,
/// whether it exits within the grace period or is killed after it.
pub proof fn law_shutdown_ends_stopped(manager: RouterManager)
    requires
        manager.state is Running,
    ensures
        ({
            let stopping = manager.step_spec(RouterEvent::ShutdownRequested).0;
            let killed = stopping.step_spec(RouterEvent::GraceElapsed).0;
            &&& stopping.step_spec(RouterEvent::Exited).0.state is Stopped
            &&& killed.step_spec(RouterEvent::Exited).0.state is Stopped
        }),
{
}

} // verus!
