use vstd::prelude::*;
use crate::error::LinkError;

verus! {

/// How often an action is tried, and the base of the delay between tries.
/// The delay actually slept is the base scaled by a random jitter factor.
#[derive(Clone, Copy, Debug, PartialEq, Eq, Structural)]
pub struct RetryPolicy {
    pub attempts: u32,
    pub base_delay_ms: u64,
}

/// Tries per retried action, the first one included.
pub const RETRY_ATTEMPTS: u32 = 3;

/// The delay between tries before jitter, in milliseconds.
pub const RETRY_BASE_DELAY_MS: u64 = 10;

/// The policy used both for connecting and for commands.
pub open spec fn standard_policy() -> RetryPolicy {
    RetryPolicy { attempts: RETRY_ATTEMPTS, base_delay_ms: RETRY_BASE_DELAY_MS }
}

/// The number of tries a policy allows: at least one, whatever it says.
pub open spec fn attempt_cap(p: RetryPolicy) -> u32 {
    if p.attempts == 0 { 1 } else { p.attempts }
}

/// Under the standard policy a call makes at most three attempts, and so
/// triggers at most three reconnections.
pub proof fn lemma_standard_attempt_bound()
    ensures
        attempt_cap(standard_policy()) == 3,
{
}

/// A retried operation call whose attempt number `attempts()` is under way.
/// Every earlier attempt failed and was followed by one reconnection.
pub struct Attempting {
    made: u32,
    cap: u32,
}

/// A retried call whose latest attempt failed with `error()`; the connection
/// is being repaired before anything else happens.
pub struct Reconnecting {
    made: u32,
    cap: u32,
    error: LinkError,
}

/// A retried call that waits out the delay before its next attempt.
pub struct Waiting {
    made: u32,
    cap: u32,
}

/// What follows an attempt: the call's result, or a reconnection.
pub enum AfterAttempt<T> {
    Return(Result<T, LinkError>),
    Reconnect(Reconnecting),
}

/// What follows a reconnection: another attempt after a delay, or giving up
/// with the error of the last attempt.
pub enum AfterReconnect {
    Retry(Waiting),
    GiveUp(LinkError),
}

impl Attempting {
    #[verifier::type_invariant]
    spec fn inv(self) -> bool {
        1 <= self.made <= self.cap
    }

    /// The number of attempts started so far, the current one included.
    pub closed spec fn attempts(self) -> u32 {
        self.made
    }

    /// The most attempts this call may make.
    pub closed spec fn cap(self) -> u32 {
        self.cap
    }

    /// The reconnections triggered so far: one per failed attempt.
    pub closed spec fn reconnects(self) -> u32 {
        (self.made - 1) as u32
    }

    /// Starts a call under `policy`: its first attempt is due now.
    pub fn start(policy: RetryPolicy) -> (r: Attempting)
        ensures
            r.attempts() == 1,
            r.cap() == attempt_cap(policy),
    {
        let cap: u32 = if policy.attempts == 0 { 1 } else { policy.attempts };
        Attempting { made: 1, cap }
    }

    /// Takes in the outcome of the current attempt. A success ends the call;
    /// any failure, whatever its kind, leads to a reconnection first.
    pub fn attempted<T>(self, outcome: Result<T, LinkError>) -> (r: AfterAttempt<T>)
        ensures
            match outcome {
                Ok(v) => r == AfterAttempt::<T>::Return(Ok(v)),
                Err(e) => r is Reconnect
                    && r->Reconnect_0.attempts() == self.attempts()
                    && r->Reconnect_0.cap() == self.cap()
                    && r->Reconnect_0.error() == e,
            },
    {
        proof { use_type_invariant(&self); }
        match outcome {
            Ok(v) => AfterAttempt::Return(Ok(v)),
            Err(e) => AfterAttempt::Reconnect(Reconnecting { made: self.made, cap: self.cap, error: e }),
        }
    }

    /// The attempts started so far; never more than the cap, and one more
    /// than the reconnections triggered so far.
    pub fn attempt_count(&self) -> (r: u32)
        ensures
            r == self.attempts(),
            1 <= r <= self.cap(),
            self.reconnects() == r - 1,
    {
        proof { use_type_invariant(self); }
        self.made
    }

}

impl Reconnecting {
    #[verifier::type_invariant]
    spec fn inv(self) -> bool {
        1 <= self.made <= self.cap
    }

    pub closed spec fn attempts(self) -> u32 {
        self.made
    }

    pub closed spec fn cap(self) -> u32 {
        self.cap
    }

    pub closed spec fn error(self) -> LinkError {
        self.error
    }

    /// The reconnections triggered so far, the one under way included.
    pub closed spec fn reconnects(self) -> u32 {
        self.made
    }

    /// Whether another attempt follows this reconnection.
    pub open spec fn retries(self) -> bool {
        self.attempts() < self.cap()
    }

    /// Called once the reconnection is over, whatever its outcome: the next
    /// attempt reads the connection state afresh.
    pub fn reconnected(self) -> (r: AfterReconnect)
        ensures
            self.retries() ==> r is Retry && r->Retry_0.attempts() == self.attempts()
                && r->Retry_0.cap() == self.cap(),
            !self.retries() ==> r == AfterReconnect::GiveUp(self.error()),
    {
        proof { use_type_invariant(&self); }
        if self.made < self.cap {
            AfterReconnect::Retry(Waiting { made: self.made, cap: self.cap })
        } else {
            AfterReconnect::GiveUp(self.error)
        }
    }

    pub fn failure(&self) -> (r: LinkError)
        ensures
            r == self.error(),
    {
        self.error
    }

    /// The attempts made so far; each one failed and triggered one
    /// reconnection, the one under way included.
    pub fn attempt_count(&self) -> (r: u32)
        ensures
            r == self.attempts(),
            1 <= r <= self.cap(),
            self.reconnects() == r,
    {
        proof { use_type_invariant(self); }
        self.made
    }

}

impl Waiting {
    #[verifier::type_invariant]
    spec fn inv(self) -> bool {
        1 <= self.made < self.cap
    }

    /// The attempts made so far, all of which failed.
    pub closed spec fn attempts(self) -> u32 {
        self.made
    }

    pub closed spec fn cap(self) -> u32 {
        self.cap
    }

    /// Called once the delay has passed: the next attempt is due.
    pub fn waited(self) -> (r: Attempting)
        ensures
            r.attempts() == self.attempts() + 1,
            r.cap() == self.cap(),
    {
        proof { use_type_invariant(&self); }
        Attempting { made: self.made + 1, cap: self.cap }
    }

    /// The attempts made so far: fewer than the cap, since another follows.
    pub fn attempt_count(&self) -> (r: u32)
        ensures
            r == self.attempts(),
            1 <= r < self.cap(),
    {
        proof { use_type_invariant(self); }
        self.made
    }

}

/// A reconnection in progress: its attempt number `attempts()` is under way.
/// Each attempt resolves the host, opens a connection and installs the
/// outcome into the connection slot.
pub struct Connecting {
    made: u32,
    cap: u32,
}

/// What follows a connection attempt: the reconnection's outcome, or another
/// attempt after a delay.
pub enum AfterConnect {
    Done(Result<(), LinkError>),
    Again(Connecting),
}

impl Connecting {
    #[verifier::type_invariant]
    spec fn inv(self) -> bool {
        1 <= self.made <= self.cap
    }

    pub closed spec fn attempts(self) -> u32 {
        self.made
    }

    pub closed spec fn cap(self) -> u32 {
        self.cap
    }

    /// Starts a reconnection under `policy`: its first attempt is due now.
    pub fn start(policy: RetryPolicy) -> (r: Connecting)
        ensures
            r.attempts() == 1,
            r.cap() == attempt_cap(policy),
    {
        let cap: u32 = if policy.attempts == 0 { 1 } else { policy.attempts };
        Connecting { made: 1, cap }
    }

    /// Takes in the outcome of the current attempt. A success, or a failure
    /// of the last allowed attempt, ends the reconnection with that outcome.
    pub fn attempted(self, outcome: Result<(), LinkError>) -> (r: AfterConnect)
        ensures
            (outcome is Ok || self.attempts() == self.cap()) ==> r == AfterConnect::Done(outcome),
            (outcome is Err && self.attempts() < self.cap()) ==> r is Again
                && r->Again_0.attempts() == self.attempts() + 1
                && r->Again_0.cap() == self.cap(),
    {
        proof { use_type_invariant(&self); }
        match outcome {
            Ok(()) => AfterConnect::Done(outcome),
            Err(_) => {
                if self.made < self.cap {
                    AfterConnect::Again(Connecting { made: self.made + 1, cap: self.cap })
                } else {
                    AfterConnect::Done(outcome)
                }
            },
        }
    }

    /// The attempts started so far; never more than the cap.
    pub fn attempt_count(&self) -> (r: u32)
        ensures
            r == self.attempts(),
            1 <= r <= self.cap(),
    {
        proof { use_type_invariant(self); }
        self.made
    }
}

} // verus!
