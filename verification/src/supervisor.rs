//! Ownership of the server's child process from launch to shutdown.

use vstd::prelude::*;

verus! {

/// The phase of the server's life, without the process handle.
#[derive(Clone, Copy, Debug, PartialEq, Eq, Structural)]
pub enum Phase {
    /// No server process has been recorded.
    NotStarted,
    /// A server process has been recorded and not yet stopped.
    Running,
    /// The shutdown has been carried out.
    Terminated,
}

/// The life of the server as its supervisor sees it. `H` is the caller's
/// handle to a spawned process.
pub enum Lifecycle<H> {
    /// No server process has been recorded.
    NotStarted,
    /// The server runs, and this is its handle.
    Running(H),
    /// The shutdown has been carried out; the handle, if there was one, has
    /// been given out for termination.
    Terminated,
}

impl<H> Lifecycle<H> {
    /// The phase of this life.
    pub open spec fn phase(self) -> Phase {
        match self {
            Lifecycle::NotStarted => Phase::NotStarted,
            Lifecycle::Running(_) => Phase::Running,
            Lifecycle::Terminated => Phase::Terminated,
        }
    }

    /// The handle that is held, if any.
    pub open spec fn child(self) -> Option<H> {
        match self {
            Lifecycle::Running(child) => Some(child),
            _ => None,
        }
    }

    /// The life after `child` is offered for recording: it is taken only
    /// where none has been recorded and the shutdown has not happened.
    pub open spec fn recorded(self, child: H) -> Lifecycle<H> {
        match self {
            Lifecycle::NotStarted => Lifecycle::Running(child),
            _ => self,
        }
    }

    /// The life after shutdown.
    pub open spec fn stopped(self) -> Lifecycle<H> {
        Lifecycle::Terminated
    }
}

/// A handle is recorded at most once and given out at most once: after a
/// first recording a second one changes nothing; the shutdown gives out
/// the handle that was recorded; after the shutdown nothing is held,
/// nothing more is recorded, and a second shutdown gives out nothing.
pub proof fn lemma_single_ownership<H>(life: Lifecycle<H>, first: H, second: H)
    ensures
        life.recorded(first).recorded(second) == life.recorded(first),
        Lifecycle::<H>::NotStarted.recorded(first).child() == Some(first),
        life.stopped().child() == None::<H>,
        life.stopped().recorded(first) == life.stopped(),
        life.stopped().stopped() == life.stopped(),
{
}

/// The owner of the server's child process. The handle is a private part
/// of it: it comes in by `record_child` and leaves by `shutdown`.
pub struct Supervisor<H> {
    life: Lifecycle<H>,
}

impl<H> View for Supervisor<H> {
    type V = Lifecycle<H>;

    closed spec fn view(&self) -> Lifecycle<H> {
        self.life
    }
}

impl<H> Supervisor<H> {
    /// A supervisor with no server recorded.
    pub fn new() -> (supervisor: Self)
        ensures
            supervisor@ == Lifecycle::<H>::NotStarted,
    {
        Supervisor { life: Lifecycle::NotStarted }
    }

    /// The phase of the server's life.
    pub fn phase(&self) -> (phase: Phase)
        ensures
            phase == self@.phase(),
    {
        match &self.life {
            Lifecycle::NotStarted => Phase::NotStarted,
            Lifecycle::Running(_) => Phase::Running,
            Lifecycle::Terminated => Phase::Terminated,
        }
    }

    /// Records the handle of the server that was just spawned. It is taken
    /// if no server has been recorded and the shutdown has not happened;
    /// otherwise nothing changes and the handle comes back as the error.
    pub fn record_child(&mut self, child: H) -> (outcome: Result<(), H>)
        ensures
            final(self)@ == old(self)@.recorded(child),
            old(self)@.phase() == Phase::NotStarted ==> outcome == Ok::<(), H>(()),
            old(self)@.phase() != Phase::NotStarted ==> outcome == Err::<(), H>(child),
    {
        match &self.life {
            Lifecycle::NotStarted => {
                self.life = Lifecycle::Running(child);
                Ok(())
            },
            _ => Err(child),
        }
    }

    /// Carries out the shutdown: gives out the handle of the running
    /// server, if there is one, for the caller to terminate and to wait for,
    /// and holds nothing afterwards.
    pub fn shutdown(&mut self) -> (child: Option<H>)
        ensures
            child == old(self)@.child(),
            final(self)@ == old(self)@.stopped(),
    {
        let mut life = Lifecycle::Terminated;
        core::mem::swap(&mut self.life, &mut life);
        match life {
            Lifecycle::Running(child) => Some(child),
            _ => None,
        }
    }
}

} // verus!
