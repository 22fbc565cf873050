//! The readiness wait: a bounded series of connection attempts with a pause
//! after each failure. The probe decides; its driver connects and sleeps.

use vstd::prelude::*;

verus! {

/// How long a single connection attempt may take, in milliseconds.
pub const CONNECT_TIMEOUT_MS: u64 = 100;

/// Where a readiness wait stands.
#[derive(Clone, Copy, Debug, PartialEq, Eq, Structural)]
pub enum ProbeStep {
    /// The next connection attempt is due.
    Connect,
    /// The last attempt failed and the pause after it is due.
    Sleep,
    /// An attempt succeeded: the wait is over.
    Ready,
    /// Every attempt failed: the wait is over.
    TimedOut,
}

/// What the driver of a readiness wait has to do next.
#[derive(Clone, Copy, Debug, PartialEq, Eq, Structural)]
pub enum ProbeAction {
    /// Try to connect, giving up after `timeout_ms`; `attempt` counts from 1.
    Connect { attempt: u32, timeout_ms: u64 },
    /// Pause for `millis` milliseconds.
    Sleep { millis: u64 },
    /// Stop: the server answered at attempt number `attempt`.
    Ready { attempt: u32 },
    /// Stop: the server did not answer in `attempts` attempts.
    GiveUp { attempts: u32 },
}

/// The state of a readiness wait, as plain data.
#[derive(Clone, Copy, Debug, PartialEq, Eq, Structural)]
pub struct ProbeState {
    /// The number of connection attempts allowed.
    pub max_retries: u32,
    /// The pause after a failed attempt, in milliseconds.
    pub interval_ms: u64,
    /// The number of connection attempts that have finished.
    pub attempts: u32,
    /// What is due next.
    pub step: ProbeStep,
}

impl ProbeState {
    /// The state before the first attempt. A wait that allows no attempt is
    /// over at once.
    pub open spec fn begin(max_retries: u32, interval_ms: u64) -> ProbeState {
        ProbeState {
            max_retries,
            interval_ms,
            attempts: 0,
            step: if max_retries == 0 {
                ProbeStep::TimedOut
            } else {
                ProbeStep::Connect
            },
        }
    }

    /// The states that a wait can be in: the attempts never exceed the
    /// allowance, an attempt is due only while some are left, a pause or a
    /// success follows an attempt, and the wait times out only with the
    /// allowance used up.
    pub open spec fn wf(self) -> bool {
        match self.step {
            ProbeStep::Connect => self.attempts < self.max_retries,
            ProbeStep::Sleep => 1 <= self.attempts <= self.max_retries,
            ProbeStep::Ready => 1 <= self.attempts <= self.max_retries,
            ProbeStep::TimedOut => self.attempts == self.max_retries,
        }
    }

    /// Whether the wait is over.
    pub open spec fn finished(self) -> bool {
        self.step == ProbeStep::Ready || self.step == ProbeStep::TimedOut
    }

    /// What the driver has to do in this state.
    pub open spec fn action(self) -> ProbeAction {
        match self.step {
            ProbeStep::Connect => ProbeAction::Connect {
                attempt: (self.attempts + 1) as u32,
                timeout_ms: CONNECT_TIMEOUT_MS,
            },
            ProbeStep::Sleep => ProbeAction::Sleep { millis: self.interval_ms },
            ProbeStep::Ready => ProbeAction::Ready { attempt: self.attempts },
            ProbeStep::TimedOut => ProbeAction::GiveUp { attempts: self.max_retries },
        }
    }

    /// The state after a connection attempt has finished. Where no attempt
    /// was due the state stays as it is.
    pub open spec fn after_connect(self, connected: bool) -> ProbeState {
        if self.step == ProbeStep::Connect {
            ProbeState {
                attempts: (self.attempts + 1) as u32,
                step: if connected {
                    ProbeStep::Ready
                } else {
                    ProbeStep::Sleep
                },
                ..self
            }
        } else {
            self
        }
    }

    /// The state after a pause has finished. Where no pause was due the
    /// state stays as it is.
    pub open spec fn after_sleep(self) -> ProbeState {
        if self.step == ProbeStep::Sleep {
            ProbeState {
                step: if self.attempts < self.max_retries {
                    ProbeStep::Connect
                } else {
                    ProbeStep::TimedOut
                },
                ..self
            }
        } else {
            self
        }
    }

    /// The number of pauses that have finished.
    pub open spec fn pauses(self) -> nat {
        match self.step {
            ProbeStep::Connect | ProbeStep::TimedOut => self.attempts as nat,
            ProbeStep::Sleep | ProbeStep::Ready => (self.attempts - 1) as nat,
        }
    }

    /// An upper bound, in milliseconds, on the time that the driver has
    /// spent connecting and pausing to reach this state.
    pub open spec fn waited_ms(self) -> nat {
        self.attempts as nat * CONNECT_TIMEOUT_MS as nat + self.pauses() * self.interval_ms as nat
    }

    /// The state that a driver reaches from this one when its connection
    /// attempts end as `results` tells, in order: it connects and pauses as
    /// the state asks, and stops when the wait is over or when `results` has
    /// no entry left for an attempt that is due.
    pub open spec fn drive(self, results: Seq<bool>) -> ProbeState
        decreases results.len(), (if self.step == ProbeStep::Sleep { 1nat } else { 0nat }),
    {
        match self.step {
            ProbeStep::Connect => if results.len() == 0 {
                self
            } else {
                self.after_connect(results[0]).drive(results.skip(1))
            },
            ProbeStep::Sleep => self.after_sleep().drive(results),
            ProbeStep::Ready | ProbeStep::TimedOut => self,
        }
    }
}

/// The longest time, in milliseconds, that a wait with this allowance can
/// take: every attempt runs into its timeout and is followed by a pause.
pub open spec fn worst_case_wait_ms(max_retries: u32, interval_ms: u64) -> nat {
    max_retries as nat * (CONNECT_TIMEOUT_MS as nat + interval_ms as nat)
}

/// Whether attempt number `index`, counted from 0, is the first in `results`
/// that succeeds.
pub open spec fn first_success(results: Seq<bool>, index: int) -> bool {
    &&& 0 <= index < results.len()
    &&& results[index]
    &&& forall|j: int| 0 <= j < index ==> !results[j]
}

/// A finished attempt or pause leads from a state that a wait can be in to
/// another such state. An attempt adds one to the attempts and leaves the
/// pauses; a pause adds one to the pauses and leaves the attempts.
pub proof fn lemma_steps_keep_wf(state: ProbeState, connected: bool)
    requires
        state.wf(),
    ensures
        state.after_connect(connected).wf(),
        state.after_sleep().wf(),
        state.step == ProbeStep::Connect ==> state.after_connect(connected).attempts
            == state.attempts + 1 && state.after_connect(connected).pauses() == state.pauses(),
        state.step == ProbeStep::Sleep ==> state.after_sleep().attempts == state.attempts
            && state.after_sleep().pauses() == state.pauses() + 1,
{
}

/// In every state that a wait can be in, no more attempts have been made
/// and no more pauses taken than the allowance, and the time spent is at
/// most the worst case of the allowance.
pub proof fn lemma_wait_is_bounded(state: ProbeState)
    requires
        state.wf(),
    ensures
        state.attempts <= state.max_retries,
        state.pauses() <= state.max_retries,
        state.waited_ms() <= worst_case_wait_ms(state.max_retries, state.interval_ms),
{
    let attempts = state.attempts as nat;
    let pauses = state.pauses();
    let allowed = state.max_retries as nat;
    let timeout = CONNECT_TIMEOUT_MS as nat;
    let interval = state.interval_ms as nat;
    assert(attempts * timeout <= allowed * timeout) by (nonlinear_arith)
        requires
            attempts <= allowed,
    ;
    assert(pauses * interval <= allowed * interval) by (nonlinear_arith)
        requires
            pauses <= allowed,
    ;
    assert(allowed * (timeout + interval) == allowed * timeout + allowed * interval)
        by (nonlinear_arith);
}

/// A driver that starts from a state that a wait can be in stays within
/// such states, whatever the outcome of its attempts, and never changes
/// the allowance or the pause.
pub proof fn lemma_drive_keeps_wf(state: ProbeState, results: Seq<bool>)
    requires
        state.wf(),
    ensures
        state.drive(results).wf(),
        state.drive(results).max_retries == state.max_retries,
        state.drive(results).interval_ms == state.interval_ms,
        state.drive(results).attempts >= state.attempts,
    decreases results.len(), (if state.step == ProbeStep::Sleep { 1nat } else { 0nat }),
{
    match state.step {
        ProbeStep::Connect => {
            if results.len() > 0 {
                lemma_drive_keeps_wf(state.after_connect(results[0]), results.skip(1));
            }
        },
        ProbeStep::Sleep => {
            lemma_drive_keeps_wf(state.after_sleep(), results);
        },
        ProbeStep::Ready | ProbeStep::TimedOut => {},
    }
}

/// From a state in which an attempt is due, a driver whose first success
/// comes within the attempts that are left stops there, ready, having made
/// one attempt for every result up to and including the success.
pub proof fn lemma_drive_to_ready(state: ProbeState, results: Seq<bool>, index: int)
    requires
        state.wf(),
        state.step == ProbeStep::Connect,
        first_success(results, index),
        state.attempts + index < state.max_retries,
    ensures
        state.drive(results) == (ProbeState {
            attempts: (state.attempts + index + 1) as u32,
            step: ProbeStep::Ready,
            ..state
        }),
    decreases index,
{
    if index > 0 {
        let paused = state.after_connect(false);
        let next = paused.after_sleep();
        let rest = results.skip(1);
        assert(!results[0]);
        assert(first_success(rest, index - 1)) by {
            assert forall|j: int| 0 <= j < index - 1 implies !rest[j] by {
                assert(!results[j + 1]);
            }
        }
        assert(state.drive(results) == paused.drive(rest));
        assert(paused.drive(rest) == next.drive(rest));
        lemma_drive_to_ready(next, rest, index - 1);
    } else {
        let ready = state.after_connect(true);
        assert(state.drive(results) == ready.drive(results.skip(1)));
        assert(ready.drive(results.skip(1)) == ready);
    }
}

/// From a state in which an attempt is due, a driver whose attempts all
/// fail, as many as are left, stops timed out with the allowance used up.
pub proof fn lemma_drive_to_timeout(state: ProbeState, results: Seq<bool>)
    requires
        state.wf(),
        state.step == ProbeStep::Connect,
        results.len() >= state.max_retries - state.attempts,
        forall|j: int| 0 <= j < state.max_retries - state.attempts ==> !results[j],
    ensures
        state.drive(results) == (ProbeState {
            attempts: state.max_retries,
            step: ProbeStep::TimedOut,
            ..state
        }),
    decreases state.max_retries - state.attempts,
{
    let paused = state.after_connect(false);
    let next = paused.after_sleep();
    let rest = results.skip(1);
    assert(!results[0]);
    assert(state.drive(results) == paused.drive(rest));
    assert(paused.drive(rest) == next.drive(rest));
    if next.step == ProbeStep::Connect {
        assert forall|j: int| 0 <= j < next.max_retries - next.attempts implies !rest[j] by {
            assert(!results[j + 1]);
        }
        lemma_drive_to_timeout(next, rest);
    }
}

/// The readiness wait as a whole. A wait that starts fresh is ready at the
/// first attempt that succeeds, if that attempt is within the allowance.
pub proof fn lemma_wait_ready(max_retries: u32, interval_ms: u64, results: Seq<bool>, index: int)
    requires
        first_success(results, index),
        index < max_retries,
    ensures
        ProbeState::begin(max_retries, interval_ms).drive(results).action() == (ProbeAction::Ready {
            attempt: (index + 1) as u32,
        }),
{
    lemma_drive_to_ready(ProbeState::begin(max_retries, interval_ms), results, index);
}

/// The readiness wait as a whole. A wait that starts fresh and whose
/// attempts all fail gives up after exactly the allowed number of them.
pub proof fn lemma_wait_gives_up(max_retries: u32, interval_ms: u64, results: Seq<bool>)
    requires
        results.len() >= max_retries,
        forall|j: int| 0 <= j < max_retries ==> !results[j],
    ensures
        ProbeState::begin(max_retries, interval_ms).drive(results).action() == (ProbeAction::GiveUp {
            attempts: max_retries,
        }),
        ProbeState::begin(max_retries, interval_ms).drive(results).attempts == max_retries,
{
    if max_retries > 0 {
        lemma_drive_to_timeout(ProbeState::begin(max_retries, interval_ms), results);
    }
}

/// A readiness wait in progress. It starts at `ProbeState::begin` and moves
/// only as its driver reports finished attempts and pauses, so its state is
/// always one that a wait can be in.
pub struct ReadinessProbe {
    state: ProbeState,
}

impl View for ReadinessProbe {
    type V = ProbeState;

    closed spec fn view(&self) -> ProbeState {
        self.state
    }
}

impl ReadinessProbe {
    #[verifier::type_invariant]
    spec fn inv(&self) -> bool {
        self.state.wf()
    }

    /// Starts a wait of at most `max_retries` connection attempts with a
    /// pause of `interval_ms` milliseconds after each failure.
    pub fn new(max_retries: u32, interval_ms: u64) -> (probe: Self)
        ensures
            probe@ == ProbeState::begin(max_retries, interval_ms),
            probe@.wf(),
    {
        let step = if max_retries == 0 {
            ProbeStep::TimedOut
        } else {
            ProbeStep::Connect
        };
        ReadinessProbe { state: ProbeState { max_retries, interval_ms, attempts: 0, step } }
    }

    /// The state of the wait.
    pub fn state(&self) -> (state: ProbeState)
        ensures
            state == self@,
            state.wf(),
    {
        proof {
            use_type_invariant(self);
        }
        self.state
    }

    /// What the driver has to do next.
    pub fn action(&self) -> (action: ProbeAction)
        ensures
            action == self@.action(),
            self@.wf(),
    {
        proof {
            use_type_invariant(self);
        }
        match self.state.step {
            ProbeStep::Connect => ProbeAction::Connect {
                attempt: self.state.attempts + 1,
                timeout_ms: CONNECT_TIMEOUT_MS,
            },
            ProbeStep::Sleep => ProbeAction::Sleep { millis: self.state.interval_ms },
            ProbeStep::Ready => ProbeAction::Ready { attempt: self.state.attempts },
            ProbeStep::TimedOut => ProbeAction::GiveUp { attempts: self.state.max_retries },
        }
    }

    /// Whether the wait is over.
    pub fn is_finished(&self) -> (finished: bool)
        ensures
            finished == self@.finished(),
    {
        match self.state.step {
            ProbeStep::Ready | ProbeStep::TimedOut => true,
            ProbeStep::Connect | ProbeStep::Sleep => false,
        }
    }

    /// Takes note that a connection attempt has finished, and tells what to
    /// do next. A report that no attempt was due for changes nothing.
    pub fn connect_finished(&mut self, connected: bool) -> (next: ProbeAction)
        ensures
            final(self)@ == old(self)@.after_connect(connected),
            final(self)@.wf(),
            next == final(self)@.action(),
    {
        proof {
            use_type_invariant(&*self);
        }
        match self.state.step {
            ProbeStep::Connect => {
                let step = if connected {
                    ProbeStep::Ready
                } else {
                    ProbeStep::Sleep
                };
                self.state = ProbeState { attempts: self.state.attempts + 1, step, ..self.state };
            },
            _ => {},
        }
        self.action()
    }

    /// Takes note that a pause has finished, and tells what to do next. A
    /// report that no pause was due for changes nothing.
    pub fn sleep_finished(&mut self) -> (next: ProbeAction)
        ensures
            final(self)@ == old(self)@.after_sleep(),
            final(self)@.wf(),
            next == final(self)@.action(),
    {
        proof {
            use_type_invariant(&*self);
        }
        match self.state.step {
            ProbeStep::Sleep => {
                let step = if self.state.attempts < self.state.max_retries {
                    ProbeStep::Connect
                } else {
                    ProbeStep::TimedOut
                };
                self.state = ProbeState { step, ..self.state };
            },
            _ => {},
        }
        self.action()
    }
}

} // verus!
