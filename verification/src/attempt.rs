//! The course of taking or prolonging a lock: rounds over all servers, with releases and pauses
//! between them.
//!
//! The caller carries requests to the servers and waits; what to send, what the answers amount
//! to and when to stop is decided here. A round starts as an `Attempt`. If it misses the quorum
//! in time, it becomes a `Rejection`: first every server is released, then `retry` says whether
//! there is another round.

use std::time::Duration;

use crate::backend::cmd_words;
use crate::clock::{duration_millis, millis_span};
use crate::connection::{extend_call, lock_words, unlock_call, ScriptRequest};
use crate::drift::{clock_drift, drift_allowance};
use crate::error::LockError;
use crate::lock::{quorum, Lock, LockManager, ManagerView};
use crate::random::random_below;
use crate::resource::ToLockResource;

use vstd::prelude::*;

verus! {

/// What a round asks of the servers.
#[derive(Debug, Clone, Copy)]
pub enum Operation {
    /// To take the lock.
    Lock,
    /// To prolong it.
    Extend,
}

/// What is sent to one server in a round.
pub enum Request {
    Lock(redis::Cmd),
    Extend(ScriptRequest),
}

/// How many servers granted what they were asked for.
pub open spec fn granted(locked: Seq<bool>) -> nat
    decreases locked.len(),
{
    if locked.len() == 0 {
        0
    } else if locked.last() {
        granted(locked.drop_last()) + 1
    } else {
        granted(locked.drop_last())
    }
}

/// What a round is about.
pub struct AttemptView {
    pub manager: ManagerView,
    pub resource: Seq<u8>,
    pub value: Seq<u8>,
    /// In milliseconds.
    pub ttl: nat,
    pub function: Operation,
    /// Counted from one.
    pub current_try: nat,
}

/// How a round can end.
pub enum RoundVerdict {
    /// The lock is held for this many milliseconds.
    Acquired(nat),
    /// Nothing of the time to live is left.
    Expired,
    /// In time, but without a quorum.
    Rejected,
}

impl AttemptView {
    /// Nothing is left of the time to live once clock drift and the time that the round took are
    /// taken off.
    pub open spec fn expired(self, elapsed: nat) -> bool {
        self.ttl <= clock_drift(self.ttl) + elapsed
    }

    /// A majority of the servers granted what they were asked for.
    pub open spec fn reaches_quorum(self, locked: Seq<bool>) -> bool {
        granted(locked) >= quorum(self.manager.servers.len())
    }

    /// How a round ends in which the servers answered `locked` within `elapsed` milliseconds.
    pub open spec fn verdict(self, locked: Seq<bool>, elapsed: nat) -> RoundVerdict {
        if self.expired(elapsed) {
            RoundVerdict::Expired
        } else if self.reaches_quorum(locked) {
            RoundVerdict::Acquired((self.ttl - clock_drift(self.ttl) - elapsed) as nat)
        } else {
            RoundVerdict::Rejected
        }
    }

    /// There are rounds left.
    pub open spec fn has_tries_left(self) -> bool {
        self.current_try < self.manager.retry_count
    }

    /// The longest pause before the next round, in milliseconds.
    pub open spec fn longest_pause(self) -> nat {
        duration_millis(self.manager.retry_delay) as nat
    }

    /// There is another round after a pause.
    pub open spec fn tries_again(self) -> bool {
        self.has_tries_left() && self.longest_pause() <= u64::MAX
    }

    /// The next round.
    pub open spec fn next_try(self) -> AttemptView {
        AttemptView { current_try: self.current_try + 1, ..self }
    }

    /// Why there is no next round.
    pub open spec fn final_error(self) -> LockError {
        if self.has_tries_left() {
            LockError::TtlTooLarge
        } else {
            LockError::Unavailable
        }
    }

    /// `request` is what this round sends to a server.
    pub open spec fn sends(self, request: Request) -> bool {
        match self.function {
            Operation::Lock => request matches Request::Lock(cmd) && cmd_words(cmd) == lock_words(
                self.resource,
                self.value,
                self.ttl,
            ),
            Operation::Extend => request matches Request::Extend(script) && script@ == extend_call(
                self.resource,
                self.value,
                self.ttl,
            ),
        }
    }
}

/// A round that waits for the servers' answers.
pub struct Attempt {
    lock_manager: LockManager,
    resource: Vec<u8>,
    value: Vec<u8>,
    ttl: usize,
    function: Operation,
    current_try: u32,
}

impl View for Attempt {
    type V = AttemptView;

    closed spec fn view(&self) -> AttemptView {
        AttemptView {
            manager: self.lock_manager@,
            resource: self.resource@,
            value: self.value@,
            ttl: self.ttl as nat,
            function: self.function,
            current_try: self.current_try as nat,
        }
    }
}

/// A round that missed the quorum in time. The servers have to be released.
pub struct Rejection {
    attempt: Attempt,
}

impl View for Rejection {
    type V = AttemptView;

    closed spec fn view(&self) -> AttemptView {
        self.attempt@
    }
}

/// What a round comes to.
pub enum Outcome {
    Finished(Result<Lock, LockError>),
    Rejected(Rejection),
}

/// What follows a rejection, once every server is released.
pub enum Retry {
    /// Another round, after a pause.
    Again { delay: Duration, attempt: Attempt },
    GiveUp(LockError),
}

/// `retry` follows a rejected round `attempt` when the pause drawn is `pause` milliseconds.
pub open spec fn retries(attempt: AttemptView, pause: u64, retry: Retry) -> bool {
    match retry {
        Retry::Again { delay, attempt: next } => {
            &&& attempt.tries_again()
            &&& delay == millis_span(pause)
            &&& duration_millis(delay) == pause
            &&& next@ == attempt.next_try()
        },
        Retry::GiveUp(error) => {
            &&& !attempt.tries_again()
            &&& error == attempt.final_error()
        },
    }
}

/// Counts the servers that granted what they were asked for.
pub(crate) fn count_granted(locked: &Vec<bool>) -> (n: u32)
    requires
        locked@.len() <= u32::MAX,
    ensures
        n == granted(locked@),
{
    let mut n: u32 = 0;
    let mut i: usize = 0;
    while i < locked.len()
        invariant
            i <= locked@.len() <= u32::MAX,
            n <= i,
            n == granted(locked@.take(i as int)),
        decreases locked@.len() - i,
    {
        assert(locked@.take(i + 1).drop_last() =~= locked@.take(i as int));
        if locked[i] {
            n = n + 1;
        }
        i = i + 1;
    }
    assert(locked@.take(i as int) =~= locked@);
    n
}

impl Attempt {
    /// The first round.
    pub(crate) fn first(
        lock_manager: &LockManager,
        resource: Vec<u8>,
        value: Vec<u8>,
        ttl: usize,
        function: Operation,
    ) -> (attempt: Attempt)
        ensures
            attempt@ == (AttemptView {
                manager: lock_manager@,
                resource: resource@,
                value: value@,
                ttl: ttl as nat,
                function,
                current_try: 1,
            }),
    {
        Attempt {
            lock_manager: lock_manager.clone(),
            resource,
            value,
            ttl,
            function,
            current_try: 1,
        }
    }

    /// What to send to the servers, one request for each in their order.
    pub fn requests(&self) -> (requests: Vec<Request>)
        ensures
            requests@.len() == self@.manager.servers.len(),
            forall|i: int| 0 <= i < requests@.len() ==> self@.sends(#[trigger] requests@[i]),
    {
        let resource = (&self.resource).to_lock_resource();
        let servers = self.lock_manager.lock_inner().servers();
        let mut requests: Vec<Request> = Vec::new();
        let mut i: usize = 0;
        while i < servers.len()
            invariant
                i <= servers@.len(),
                requests@.len() == i,
                resource@ == self@.resource,
                forall|j: int| 0 <= j < i ==> self@.sends(#[trigger] requests@[j]),
            decreases servers@.len() - i,
        {
            let request = match self.function {
                Operation::Lock => Request::Lock(
                    servers[i].lock(&resource, self.value.as_slice(), self.ttl),
                ),
                Operation::Extend => Request::Extend(
                    servers[i].extend(&resource, self.value.as_slice(), self.ttl),
                ),
            };
            assert(self@.sends(request));
            requests.push(request);
            i = i + 1;
        }
        requests
    }

    /// What the round comes to: `locked` says which servers granted what they were asked for,
    /// and `elapsed` how long it took until all had answered.
    pub fn conclude(self, locked: &Vec<bool>, elapsed: Duration) -> (outcome: Outcome)
        requires
            locked@.len() <= u32::MAX,
        ensures
            match self@.verdict(locked@, duration_millis(elapsed) as nat) {
                RoundVerdict::Acquired(validity) => outcome matches Outcome::Finished(Ok(lock))
                    && lock.resource@ == self@.resource && lock.val@ == self@.value
                    && lock.validity_time == validity && lock.lock_manager@ == self@.manager,
                RoundVerdict::Expired => outcome == Outcome::Finished(Err(LockError::TtlExceeded)),
                RoundVerdict::Rejected => outcome matches Outcome::Rejected(rejection)
                    && rejection@ == self@,
            },
    {
        let n: u32 = count_granted(locked);
        let drift: usize = drift_allowance(self.ttl);
        let elapsed: u128 = elapsed.as_millis();
        if elapsed >= self.ttl as u128 || self.ttl as u128 <= drift as u128 + elapsed {
            return Outcome::Finished(Err(LockError::TtlExceeded));
        }
        let validity_time: usize = self.ttl - drift - elapsed as usize;
        if n >= self.lock_manager.lock_inner().get_quorum() {
            Outcome::Finished(
                Ok(
                    Lock {
                        resource: self.resource,
                        val: self.value,
                        validity_time,
                        lock_manager: self.lock_manager,
                    },
                ),
            )
        } else {
            Outcome::Rejected(Rejection { attempt: self })
        }
    }
}

impl Rejection {
    /// What to send to the servers to release them, one request for each in their order.
    pub fn release(&self) -> (requests: Vec<ScriptRequest>)
        ensures
            requests@.len() == self@.manager.servers.len(),
            forall|i: int|
                0 <= i < requests@.len() ==> (#[trigger] requests@[i])@ == unlock_call(
                    self@.resource,
                    self@.value,
                ),
    {
        self.attempt.lock_manager.unlock_requests(&self.attempt.resource, &self.attempt.value)
    }

    /// What follows once every server is released, if `pause` is the number of milliseconds to
    /// wait before another round.
    pub fn retry_after(self, pause: u64) -> (retry: Retry)
        ensures
            retries(self@, pause, retry),
    {
        let attempt = self.attempt;
        if attempt.current_try < attempt.lock_manager.retry_count() {
            if attempt.lock_manager.retry_delay().as_millis() > u64::MAX as u128 {
                return Retry::GiveUp(LockError::TtlTooLarge);
            }
            Retry::Again {
                delay: Duration::from_millis(pause),
                attempt: Attempt { current_try: attempt.current_try + 1, ..attempt },
            }
        } else {
            Retry::GiveUp(LockError::Unavailable)
        }
    }

    /// What follows once every server is released. The pause before another round is drawn at
    /// random and is shorter than the manager's retry delay; there is none if the retry delay
    /// holds no millisecond.
    pub fn retry(self) -> (retry: Retry)
        ensures
            exists|pause: u64|
                retries(self@, pause, retry) && (self@.tries_again() ==> pause
                    < self@.longest_pause() || (pause == 0 && self@.longest_pause() == 0)),
    {
        let longest: u128 = self.attempt.lock_manager.retry_delay().as_millis();
        let pause: u64 = if 0 < longest && longest <= u64::MAX as u128 {
            random_below(longest as u64)
        } else {
            0
        };
        self.retry_after(pause)
    }
}

} // verus!
