//! Supervision of the background server: at most one child process, started
//! when nothing answers on the server's port and killed when the application
//! shuts down.
//!
//! The supervisor decides and keeps the handle; the embedding application
//! probes the port, spawns and kills. Each operation is split where the
//! outside work happens: [`ServerSupervisor::ensure_running`] says whether to
//! spawn and [`ServerSupervisor::spawn_finished`] takes what came of it;
//! [`ServerSupervisor::shutdown`] hands out the process to kill.

use vstd::prelude::*;

verus! {

/// Loopback address on which a running server answers.
pub const SERVER_PROBE_ADDRESS: &'static str = "127.0.0.1:3000";

/// Executable of the server.
pub const SERVER_PROGRAM: &'static str = "elizaos";

/// The one argument with which the server is started.
pub const SERVER_START_ARGUMENT: &'static str = "start";

/// Reads a liveness probe: the server runs exactly if the connection was
/// made. A refused, timed-out or unreachable connection all mean "not
/// running".
pub fn is_server_running<S, E>(probe: &Result<S, E>) -> (running: bool)
    ensures
        running == (probe is Ok),
{
    probe.is_ok()
}

/// What startup has to do about the server.
#[derive(Debug, Clone, Copy, PartialEq, Eq)]
pub enum StartupPlan {
    /// Nothing answers on the port: spawn `program` with the one argument
    /// `argument`, with inherited standard streams and environment.
    Spawn { program: &'static str, argument: &'static str },
    /// A server is live already: take no action.
    AlreadyRunning,
}

/// The plan of a startup whose probe came back as `running`.
pub open spec fn startup_plan(running: bool) -> StartupPlan {
    if running {
        StartupPlan::AlreadyRunning
    } else {
        StartupPlan::Spawn { program: SERVER_PROGRAM, argument: SERVER_START_ARGUMENT }
    }
}

/// Number of processes that a plan asks to spawn.
pub open spec fn spawns(plan: StartupPlan) -> nat {
    match plan {
        StartupPlan::Spawn { .. } => 1,
        StartupPlan::AlreadyRunning => 0,
    }
}

/// Number of kill signals sent for the answer of a shutdown.
pub open spec fn kills<H>(target: Option<H>) -> nat {
    match target {
        Some(_) => 1,
        None => 0,
    }
}

/// Owner of the handle of the server process that this application started,
/// if it started one. `H` is whatever the application kills a process by.
#[derive(Debug)]
pub struct ServerSupervisor<H> {
    slot: Option<H>,
}

impl<H> ServerSupervisor<H> {
    /// The handle held, if any.
    pub closed spec fn handle(self) -> Option<H> {
        self.slot
    }

    /// The supervisor as a shutdown leaves it: without a handle.
    pub closed spec fn after_shutdown(self) -> Self {
        ServerSupervisor { slot: None }
    }

    /// A supervisor that has started nothing yet.
    pub fn new() -> (supervisor: Self)
        ensures
            supervisor.handle() is None,
    {
        ServerSupervisor { slot: None }
    }

    /// Whether a started process is held.
    pub fn holds_process(&self) -> (held: bool)
        ensures
            held == (self.handle() is Some),
    {
        self.slot.is_some()
    }

    /// First half of startup: decides from the liveness probe whether the
    /// server has to be spawned, and as what. A live server is left alone.
    pub fn ensure_running(&self, running: bool) -> (plan: StartupPlan)
        ensures
            plan == startup_plan(running),
    {
        if running {
            StartupPlan::AlreadyRunning
        } else {
            StartupPlan::Spawn { program: SERVER_PROGRAM, argument: SERVER_START_ARGUMENT }
        }
    }

    /// Second half of startup: takes what came of the spawn. A started
    /// process is kept for shutdown. A failure stores nothing and is handed
    /// back for the log; it is not retried and startup goes on.
    pub fn spawn_finished<E>(&mut self, spawned: Result<H, E>) -> (status: Result<(), E>)
        ensures
            match spawned {
                Ok(child) => status is Ok && final(self).handle() == Some(child),
                Err(error) => status == Err::<(), E>(error) && final(self).handle() == old(
                    self,
                ).handle(),
            },
    {
        match spawned {
            Ok(child) => {
                self.slot = Some(child);
                Ok(())
            },
            Err(error) => Err(error),
        }
    }

    /// Shutdown: hands out the process to kill, if one is held, and forgets
    /// it whether or not the kill will succeed. A failed kill leaves an
    /// orphan that is not tried again.
    pub fn shutdown(&mut self) -> (target: Option<H>)
        ensures
            target == old(self).handle(),
            *final(self) == old(self).after_shutdown(),
            final(self).handle() is None,
    {
        self.slot.take()
    }

    /// Shutting down a supervisor that never started a process is a no-op:
    /// nothing is killed and the supervisor stays as it was.
    pub proof fn lemma_shutdown_without_process_is_noop(self)
        requires
            self.handle() is None,
        ensures
            kills(self.handle()) == 0,
            self.after_shutdown() == self,
    {
    }

    /// Two shutdowns in a row, as when a window close and the application's
    /// exit both fire, send exactly one kill signal if a process was held
    /// and none otherwise: the second finds nothing to kill.
    pub proof fn lemma_second_shutdown_kills_nothing(self)
        ensures
            kills(self.after_shutdown().handle()) == 0,
            kills(self.handle()) + kills(self.after_shutdown().handle()) == (if self.handle()
                is Some {
                1nat
            } else {
                0nat
            }),
    {
    }
}

/// A live server is not spawned again: of two startups in a row of which
/// the second finds the server live, only the first can ask for a spawn, and
/// it does so exactly if it found no server.
pub proof fn lemma_live_server_is_not_spawned_again(first_running: bool)
    ensures
        spawns(startup_plan(true)) == 0,
        spawns(startup_plan(first_running)) + spawns(startup_plan(true)) == (if first_running {
            0nat
        } else {
            1nat
        }),
{
}

} // verus!
