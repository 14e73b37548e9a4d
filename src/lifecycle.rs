//! The lifecycle of one HTTP listener that runs on an execution context of its
//! own. The owner of the listener performs the outside work (spawning, binding,
//! stopping, joining); each step here decides, from the current state and what
//! just happened, the next state and what the owner must do.

use vstd::prelude::*;

verus! {

/// Where a listener stands.
#[derive(Clone, Copy, Debug, PartialEq, Eq, Structural)]
pub enum Phase {
    /// No execution context yet.
    Created,
    /// The execution context is spawned and is binding the address.
    Starting,
    /// Bound and serving requests.
    Running,
    /// The address could not be bound; nothing is served. Terminal.
    BindFailed,
    /// A graceful stop was requested and is in progress.
    Stopping,
    /// The listener has stopped. Terminal.
    Stopped,
}

/// The state of one server handle: its phase, and whether it still holds the
/// join token of its execution context.
#[derive(Clone, Copy, Debug, PartialEq, Eq, Structural)]
pub struct Lifecycle {
    pub phase: Phase,
    pub joinable: bool,
}

/// What the owner must do on teardown.
#[derive(Clone, Copy, Debug, PartialEq, Eq, Structural)]
pub struct Teardown {
    /// Stop the listener gracefully, then its execution context.
    pub stop: bool,
    /// Join the execution context.
    pub join: bool,
}

/// The phase changes a listener may go through.
pub open spec fn may_follow(from: Phase, to: Phase) -> bool {
    from == to || match (from, to) {
        (Phase::Created, Phase::Starting) => true,
        (Phase::Starting, Phase::Running) => true,
        (Phase::Starting, Phase::BindFailed) => true,
        (Phase::Running, Phase::Stopping) => true,
        (Phase::Stopping, Phase::Stopped) => true,
        _ => false,
    }
}

impl Lifecycle {
    /// A join token exists exactly while an execution context may still be
    /// running: never before it is spawned, never after a failed bind.
    pub open spec fn wf(self) -> bool {
        (self.phase == Phase::Created || self.phase == Phase::BindFailed) ==> !self.joinable
    }

    /// Whether a listener may be serving requests.
    pub open spec fn serving(self) -> bool {
        self.phase == Phase::Running
    }

    pub open spec fn spawn_step(self) -> Lifecycle {
        if self.phase == Phase::Created {
            Lifecycle { phase: Phase::Starting, joinable: true }
        } else {
            self
        }
    }

    /// The one-shot startup signal: `bound` tells whether the address was
    /// bound. Only the first signal in `Starting` counts. A failed bind asks for
    /// the join of the execution context, which has returned without serving.
    pub open spec fn startup_step(self, bound: bool) -> (Lifecycle, bool) {
        if self.phase == Phase::Starting {
            if bound {
                (Lifecycle { phase: Phase::Running, joinable: self.joinable }, false)
            } else {
                (Lifecycle { phase: Phase::BindFailed, joinable: false }, self.joinable)
            }
        } else {
            (self, false)
        }
    }

    /// Shutdown asks for a graceful stop only of a running listener.
    pub open spec fn shutdown_step(self) -> (Lifecycle, bool) {
        if self.phase == Phase::Running {
            (Lifecycle { phase: Phase::Stopping, joinable: self.joinable }, true)
        } else {
            (self, false)
        }
    }

    pub open spec fn stopped_step(self) -> Lifecycle {
        if self.phase == Phase::Stopping {
            Lifecycle { phase: Phase::Stopped, joinable: self.joinable }
        } else {
            self
        }
    }

    /// Waiting joins the execution context if the token is still held, and
    /// gives the token up.
    pub open spec fn wait_step(self) -> (Lifecycle, bool) {
        (Lifecycle { phase: self.phase, joinable: false }, self.joinable)
    }

    /// Teardown shuts down if that is still owed, then joins if that is still
    /// owed.
    pub open spec fn teardown_step(self) -> (Lifecycle, Teardown) {
        let (after_stop, stop) = self.shutdown_step();
        let (after_join, join) = after_stop.wait_step();
        (after_join, Teardown { stop, join })
    }

    /// A handle before anything has been spawned.
    pub fn new() -> (r: Lifecycle)
        ensures
            r.phase == Phase::Created,
            !r.joinable,
            r.wf(),
    {
        Lifecycle { phase: Phase::Created, joinable: false }
    }

    /// Records that the execution context was spawned.
    pub fn spawned(&mut self)
        ensures
            *final(self) == old(self).spawn_step(),
    {
        if self.phase == Phase::Created {
            self.phase = Phase::Starting;
            self.joinable = true;
        }
    }

    /// Records the startup signal; returns whether the owner must join the
    /// execution context now.
    pub fn started(&mut self, bound: bool) -> (join: bool)
        ensures
            (*final(self), join) == old(self).startup_step(bound),
    {
        if self.phase == Phase::Starting {
            if bound {
                self.phase = Phase::Running;
                false
            } else {
                let join = self.joinable;
                self.phase = Phase::BindFailed;
                self.joinable = false;
                join
            }
        } else {
            false
        }
    }

    /// Requests shutdown; returns whether the owner must stop the listener now.
    pub fn shutdown(&mut self) -> (stop: bool)
        ensures
            (*final(self), stop) == old(self).shutdown_step(),
    {
        if self.phase == Phase::Running {
            self.phase = Phase::Stopping;
            true
        } else {
            false
        }
    }

    /// Records that the graceful stop has completed.
    pub fn stopped(&mut self)
        ensures
            *final(self) == old(self).stopped_step(),
    {
        if self.phase == Phase::Stopping {
            self.phase = Phase::Stopped;
        }
    }

    /// Requests a wait; returns whether the owner must join the execution
    /// context now.
    pub fn wait(&mut self) -> (join: bool)
        ensures
            (*final(self), join) == old(self).wait_step(),
    {
        let join = self.joinable;
        self.joinable = false;
        join
    }

    /// Requests teardown; returns what the owner must do.
    pub fn teardown(&mut self) -> (r: Teardown)
        ensures
            (*final(self), r) == old(self).teardown_step(),
    {
        let stop = self.shutdown();
        let join = self.wait();
        Teardown { stop, join }
    }
}

/// Every step keeps a handle well formed and moves its phase only along the
/// lifecycle's edges: `Created -> Starting -> Running | BindFailed` and
/// `Running -> Stopping -> Stopped`, so `BindFailed` and `Stopped` are never
/// left and no running listener reaches `Stopped` without `Stopping`.
pub proof fn lemma_steps_follow_lifecycle(s: Lifecycle, bound: bool)
    requires
        s.wf(),
    ensures
        s.spawn_step().wf() && may_follow(s.phase, s.spawn_step().phase),
        s.startup_step(bound).0.wf() && may_follow(s.phase, s.startup_step(bound).0.phase),
        s.shutdown_step().0.wf() && may_follow(s.phase, s.shutdown_step().0.phase),
        s.stopped_step().wf() && may_follow(s.phase, s.stopped_step().phase),
        s.wait_step().0.wf() && may_follow(s.phase, s.wait_step().0.phase),
        s.teardown_step().0.wf() && may_follow(s.phase, s.teardown_step().0.phase),
        forall|to: Phase| may_follow(Phase::BindFailed, to) ==> to == Phase::BindFailed,
        forall|to: Phase| may_follow(Phase::Stopped, to) ==> to == Phase::Stopped,
        forall|to: Phase| may_follow(Phase::Running, to) ==> to == Phase::Running || to == Phase::Stopping,
{
}

/// The startup signal counts once: after the first one, whatever it said, a
/// second one changes nothing and asks for nothing.
pub proof fn lemma_startup_signal_counts_once(s: Lifecycle, first: bool, second: bool)
    requires
        s.wf(),
        s.phase == Phase::Starting,
    ensures
        s.startup_step(first).0.startup_step(second) == (s.startup_step(first).0, false),
        s.startup_step(first).0.phase == (if first { Phase::Running } else { Phase::BindFailed }),
{
}

/// Shutting down twice is harmless: the second shutdown asks for no stop and
/// changes nothing, and the same holds of a second teardown.
pub proof fn lemma_shutdown_is_idempotent(s: Lifecycle)
    requires
        s.wf(),
    ensures
        s.shutdown_step().0.shutdown_step() == (s.shutdown_step().0, false),
        s.teardown_step().0.teardown_step() == (
            s.teardown_step().0,
            Teardown { stop: false, join: false },
        ),
        s.phase == Phase::Running ==> s.shutdown_step().1,
{
}

/// After a running listener is shut down and has stopped, waiting joins its
/// execution context exactly when the token is still held, and never a second
/// time. Waiting while the stop is still in progress joins just the same.
pub proof fn lemma_wait_after_shutdown_joins_once(s: Lifecycle)
    requires
        s.wf(),
        s.phase == Phase::Running,
    ensures
        ({
            let stopped = s.shutdown_step().0.stopped_step();
            &&& stopped.phase == Phase::Stopped
            &&& stopped.wait_step().1 == s.joinable
            &&& !stopped.wait_step().0.joinable
            &&& !stopped.wait_step().0.wait_step().1
        }),
        s.shutdown_step().0.wait_step().1 == s.joinable,
        s.shutdown_step().0.wait_step().0.stopped_step().phase == Phase::Stopped,
{
}

/// A failed bind leaves nothing behind: the handle is not serving, the
/// execution context is joined at once, and no later shutdown, wait or
/// teardown asks for anything.
pub proof fn lemma_bind_failure_leaves_nothing(s: Lifecycle)
    requires
        s.wf(),
        s.phase == Phase::Starting,
    ensures
        ({
            let (failed, join) = s.startup_step(false);
            &&& failed.phase == Phase::BindFailed
            &&& !failed.serving()
            &&& !failed.joinable
            &&& join == s.joinable
            &&& failed.shutdown_step() == (failed, false)
            &&& failed.wait_step() == (failed, false)
            &&& failed.teardown_step() == (failed, Teardown { stop: false, join: false })
        }),
{
}

} // verus!
