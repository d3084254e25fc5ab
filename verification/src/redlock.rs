//! A lock manager for blocking callers.
//!
//! It differs from `LockManager` in that a lock is given up without an error, that it pauses
//! after the last round too, and that a round that takes too long is followed by another.

use std::time::Duration;

use crate::attempt::{count_granted, granted};
use crate::backend::{cmd_words, decimal, is_okay, push_bytes, push_number, value_is_okay};
use crate::clock::{duration_millis, millis_span};
use crate::connection::{Exchange, ScriptCall, ScriptRequest};
use crate::drift::{clock_drift, drift_allowance};
use crate::lock::{quorum, LOCK_ID_LENGTH};
use crate::random::random_below;
use crate::resource::copy_of;
use crate::uri::{all_open, clients_of, first_failure, open_all, uris_of, RedisUri};

use vstd::prelude::*;
use vstd::utf8::encode_utf8;

verus! {

/// How often a lock is attempted before it is given up.
pub const DEFAULT_RETRY_COUNT: u32 = 3;

/// The longest pause after an attempt, in milliseconds.
pub const DEFAULT_RETRY_DELAY: u32 = 200;

/// Deletes `KEYS[1]` if it holds `ARGV[1]`.
pub const UNLOCK_SCRIPT: &'static str = r"if redis.call('get',KEYS[1]) == ARGV[1] then
                                return redis.call('del',KEYS[1])
                              else
                                return 0
                              end";

/// The command that takes a lock: it stores `val` under `key` for `ttl` milliseconds, unless
/// something is stored there.
pub open spec fn lock_words(key: Seq<u8>, val: Seq<u8>, ttl: nat) -> Seq<Seq<u8>> {
    seq![encode_utf8("SET"@), key, val, encode_utf8("nx"@), encode_utf8("px"@), decimal(ttl)]
}

/// The script run that gives a lock up.
pub open spec fn unlock_call(key: Seq<u8>, val: Seq<u8>) -> ScriptCall {
    ScriptCall { code: UNLOCK_SCRIPT@, keys: seq![key], args: seq![val] }
}

/// Why there is no value to tell a lock from the others.
#[derive(Debug)]
pub enum LockIdError {
    /// The source of random bytes could not be read.
    Read(std::io::Error),
    /// The source ran dry.
    NotEnough,
}

impl LockIdError {
    /// What is wrong, for a source that ran dry.
    pub fn short_read_message() -> (text: &'static str)
        ensures
            text@ == "Can't read enough random bytes"@,
    {
        "Can't read enough random bytes"
    }
}

/// What a blocking lock manager is made of.
pub struct RedLockView {
    pub servers: Seq<redis::Client>,
    pub retry_count: u32,
    pub retry_delay: u32,
}

/// The lock manager.
///
/// It knows the servers, and how often and after which pauses to try again.
#[derive(Debug)]
pub struct RedLock {
    servers: Vec<redis::Client>,
    quorum: u32,
    retry_count: u32,
    retry_delay: u32,
}

impl View for RedLock {
    type V = RedLockView;

    closed spec fn view(&self) -> RedLockView {
        RedLockView {
            servers: self.servers@,
            retry_count: self.retry_count,
            retry_delay: self.retry_delay,
        }
    }
}

impl Clone for RedLock {
    fn clone(&self) -> (copy: RedLock)
        ensures
            copy@.servers.len() == self@.servers.len(),
            forall|i: int|
                0 <= i < copy@.servers.len() ==> cloned(
                    self@.servers[i],
                    #[trigger] copy@.servers[i],
                ),
            copy@.retry_count == self@.retry_count,
            copy@.retry_delay == self@.retry_delay,
    {
        proof {
            use_type_invariant(self);
        }
        RedLock {
            servers: self.servers.clone(),
            quorum: self.quorum,
            retry_count: self.retry_count,
            retry_delay: self.retry_delay,
        }
    }
}

/// A lock that was taken with a blocking lock manager.
pub struct Lock<'a> {
    /// The resource to lock. Will be used as the key in Redis.
    pub resource: Vec<u8>,
    /// The value for this lock.
    pub val: Vec<u8>,
    /// Time the lock is still valid, in milliseconds.
    /// Should only be slightly smaller than the requested TTL.
    pub validity_time: usize,
    /// Used to limit the lifetime of a lock to its lock manager.
    pub lock_manager: &'a RedLock,
}

/// A lock that is to be given up when the guard is.
pub struct RedLockGuard<'a> {
    pub lock: Lock<'a>,
}

impl<'a> RedLockGuard<'a> {
    /// What to send to the servers when the guard is given up: what `RedLock::unlock` sends for
    /// its lock.
    pub fn release(&self) -> (requests: Vec<ScriptRequest>)
        ensures
            requests@.len() == self.lock.lock_manager@.servers.len(),
            forall|i: int|
                0 <= i < requests@.len() ==> (#[trigger] requests@[i])@ == unlock_call(
                    self.lock.resource@,
                    self.lock.val@,
                ),
    {
        self.lock.lock_manager.unlock(&self.lock)
    }
}

impl RedLock {
    #[verifier::type_invariant]
    closed spec fn majority(self) -> bool {
        &&& self.servers@.len() <= u32::MAX
        &&& self.quorum == quorum(self.servers@.len())
    }

    /// A lock manager of the servers that the connection strings name.
    /// A lock is held once N/2+1 of the N servers have granted it.
    ///
    /// Sample URI: `"redis://127.0.0.1:6379"`
    pub fn new<T: RedisUri>(uris: Vec<T>) -> (manager: RedLock)
        requires
            uris@.len() <= u32::MAX,
            all_open(uris_of(uris@)),
        ensures
            manager@ == (RedLockView {
                servers: clients_of(uris_of(uris@)),
                retry_count: DEFAULT_RETRY_COUNT,
                retry_delay: DEFAULT_RETRY_DELAY,
            }),
    {
        let quorum: u32 = (uris.len() as u32) / 2 + 1;
        let servers = match open_all(&uris) {
            Ok(servers) => servers,
            Err(_) => {
                assert(false);
                Vec::new()
            },
        };
        RedLock {
            servers,
            quorum,
            retry_count: DEFAULT_RETRY_COUNT,
            retry_delay: DEFAULT_RETRY_DELAY,
        }
    }

    /// A lock manager of the servers that the connection strings name, or the reason why the
    /// first string that is no connection string is none.
    pub fn open<T: RedisUri>(uris: Vec<T>) -> (manager: Result<RedLock, redis::RedisError>)
        requires
            uris@.len() <= u32::MAX,
        ensures
            match manager {
                Ok(manager) => all_open(uris_of(uris@)) && manager@ == (RedLockView {
                    servers: clients_of(uris_of(uris@)),
                    retry_count: DEFAULT_RETRY_COUNT,
                    retry_delay: DEFAULT_RETRY_DELAY,
                }),
                Err(error) => first_failure(uris_of(uris@), error),
            },
    {
        match open_all(&uris) {
            Ok(_) => Ok(RedLock::new(uris)),
            Err(error) => Err(error),
        }
    }

    /// All servers.
    pub fn servers(&self) -> (servers: &Vec<redis::Client>)
        ensures
            servers@ == self@.servers,
            servers@.len() <= u32::MAX,
    {
        proof {
            use_type_invariant(self);
        }
        &self.servers
    }

    /// How many servers have to grant a lock.
    pub fn quorum(&self) -> (q: u32)
        ensures
            q == quorum(self@.servers.len()),
    {
        proof {
            use_type_invariant(self);
        }
        self.quorum
    }

    /// The value that tells a lock from the others, from what was read off the source of random
    /// bytes: its first 20 bytes, if there are as many.
    pub fn get_unique_lock_id(&self, read: Result<Vec<u8>, std::io::Error>) -> (id: Result<
        Vec<u8>,
        LockIdError,
    >)
        ensures
            match read {
                Ok(bytes) => if bytes@.len() >= LOCK_ID_LENGTH {
                    id matches Ok(val) && val@ == bytes@.take(LOCK_ID_LENGTH as int)
                } else {
                    id == Err::<Vec<u8>, LockIdError>(LockIdError::NotEnough)
                },
                Err(error) => id == Err::<Vec<u8>, LockIdError>(LockIdError::Read(error)),
            },
    {
        match read {
            Ok(bytes) => {
                if bytes.len() >= LOCK_ID_LENGTH {
                    let mut val = bytes;
                    val.truncate(LOCK_ID_LENGTH);
                    Ok(val)
                } else {
                    Err(LockIdError::NotEnough)
                }
            },
            Err(error) => Err(LockIdError::Read(error)),
        }
    }

    /// Set retry count and retry delay.
    ///
    /// Retry count defaults to `3`.
    /// Retry delay defaults to `200`.
    pub fn set_retry(&mut self, count: u32, delay: u32)
        ensures
            final(self)@ == (RedLockView { retry_count: count, retry_delay: delay, ..old(self)@ }),
    {
        proof {
            use_type_invariant(&*self);
        }
        self.retry_count = count;
        self.retry_delay = delay;
    }

    /// The command that asks a server for the lock.
    pub fn lock_instance(&self, resource: &[u8], val: &[u8], ttl: usize) -> (cmd: redis::Cmd)
        ensures
            cmd_words(cmd) == lock_words(resource@, val@, ttl as nat),
    {
        let mut cmd = redis::cmd("SET");
        push_bytes(&mut cmd, resource);
        push_bytes(&mut cmd, val);
        push_bytes(&mut cmd, "nx".as_bytes());
        push_bytes(&mut cmd, "px".as_bytes());
        push_number(&mut cmd, ttl);
        assert(cmd_words(cmd) =~= lock_words(resource@, val@, ttl as nat));
        cmd
    }

    /// Whether a server granted the lock: only if it answered `OK`.
    pub fn lock_instance_reply(&self, exchange: &Exchange<redis::Value>) -> (granted: bool)
        ensures
            granted == (*exchange matches Exchange::Reply(value) && is_okay(value)),
    {
        match exchange {
            Exchange::Reply(value) => value_is_okay(value),
            Exchange::NoConnection(_) => false,
            Exchange::Failed(_) => false,
        }
    }

    /// The script run that asks a server to give the lock up.
    pub fn unlock_instance(&self, resource: &[u8], val: &[u8]) -> (request: ScriptRequest)
        ensures
            request@ == unlock_call(resource@, val@),
    {
        ScriptRequest::new(UNLOCK_SCRIPT, copy_of(resource), copy_of(val), None)
    }

    /// Whether a server gave the lock up: only if it answered 1.
    pub fn unlock_instance_reply(&self, exchange: &Exchange<i32>) -> (done: bool)
        ensures
            done == (*exchange matches Exchange::Reply(value) && value == 1),
    {
        match exchange {
            Exchange::Reply(value) => *value == 1,
            Exchange::NoConnection(_) => false,
            Exchange::Failed(_) => false,
        }
    }

    /// What to send to the servers to unlock the given lock, one request for each in their
    /// order.
    ///
    /// Unlock is best effort: whatever the servers answer, the lock is done with.
    pub fn unlock(&self, lock: &Lock<'_>) -> (requests: Vec<ScriptRequest>)
        ensures
            requests@.len() == self@.servers.len(),
            forall|i: int|
                0 <= i < requests@.len() ==> (#[trigger] requests@[i])@ == unlock_call(
                    lock.resource@,
                    lock.val@,
                ),
    {
        self.unlock_requests(&lock.resource, &lock.val)
    }

    fn unlock_requests(&self, resource: &Vec<u8>, val: &Vec<u8>) -> (requests: Vec<ScriptRequest>)
        ensures
            requests@.len() == self@.servers.len(),
            forall|i: int|
                0 <= i < requests@.len() ==> (#[trigger] requests@[i])@ == unlock_call(
                    resource@,
                    val@,
                ),
    {
        let mut requests: Vec<ScriptRequest> = Vec::new();
        let mut i: usize = 0;
        while i < self.servers.len()
            invariant
                i <= self.servers@.len(),
                requests@.len() == i,
                forall|j: int|
                    0 <= j < i ==> (#[trigger] requests@[j])@ == unlock_call(resource@, val@),
            decreases self.servers@.len() - i,
        {
            requests.push(self.unlock_instance(resource.as_slice(), val.as_slice()));
            i = i + 1;
        }
        requests
    }

    /// Starts to acquire the lock for the given resource and the requested TTL, under the value
    /// `val`.
    ///
    /// `None` if the lock is not to be attempted even once.
    pub fn lock<'a>(&'a self, resource: &[u8], ttl: usize, val: Vec<u8>) -> (attempt: Option<
        Attempt<'a>,
    >)
        ensures
            match attempt {
                Some(attempt) => self@.retry_count > 0 && attempt@ == (AttemptView {
                    manager: self@,
                    resource: resource@,
                    val: val@,
                    ttl: ttl as nat,
                    tries_left: self@.retry_count as nat,
                }),
                None => self@.retry_count == 0,
            },
    {
        if self.retry_count == 0 {
            None
        } else {
            Some(
                Attempt {
                    lock_manager: self,
                    resource: copy_of(resource),
                    val,
                    ttl,
                    tries_left: self.retry_count,
                },
            )
        }
    }

    /// Whether to go on trying to acquire a lock, given what one run of `lock` came to: a lock is
    /// returned in a guard, and without one the caller tries again.
    pub fn acquire<'a>(&'a self, result: Option<Lock<'a>>) -> (guard: Option<RedLockGuard<'a>>)
        ensures
            guard == match result {
                Some(lock) => Some(RedLockGuard { lock }),
                None => None,
            },
    {
        match result {
            Some(lock) => Some(RedLockGuard { lock }),
            None => None,
        }
    }
}

/// What a round is about.
pub struct AttemptView {
    pub manager: RedLockView,
    pub resource: Seq<u8>,
    pub val: Seq<u8>,
    /// In milliseconds.
    pub ttl: nat,
    /// This round counts too.
    pub tries_left: nat,
}

impl AttemptView {
    /// What is left of the time to live once clock drift and the time that the round took are
    /// taken off.
    pub open spec fn validity(self, elapsed: nat) -> int {
        self.ttl - clock_drift(self.ttl) - elapsed
    }

    /// A majority of the servers granted the lock, and something is left of its time to live.
    pub open spec fn acquires(self, locked: Seq<bool>, elapsed: nat) -> bool {
        granted(locked) >= quorum(self.manager.servers.len()) && self.validity(elapsed) > 0
    }

    /// The next round.
    pub open spec fn next_try(self) -> AttemptView {
        AttemptView { tries_left: (self.tries_left - 1) as nat, ..self }
    }
}

/// A round that waits for the servers' answers.
pub struct Attempt<'a> {
    lock_manager: &'a RedLock,
    resource: Vec<u8>,
    val: Vec<u8>,
    ttl: usize,
    tries_left: u32,
}

impl<'a> View for Attempt<'a> {
    type V = AttemptView;

    closed spec fn view(&self) -> AttemptView {
        AttemptView {
            manager: self.lock_manager@,
            resource: self.resource@,
            val: self.val@,
            ttl: self.ttl as nat,
            tries_left: self.tries_left as nat,
        }
    }
}

/// A round that failed. The servers have to be released.
pub struct Rejection<'a> {
    attempt: Attempt<'a>,
}

impl<'a> View for Rejection<'a> {
    type V = AttemptView;

    closed spec fn view(&self) -> AttemptView {
        self.attempt@
    }
}

/// What a round comes to.
pub enum Outcome<'a> {
    Acquired(Lock<'a>),
    Rejected(Rejection<'a>),
}

/// What follows a rejection, once every server is released: a pause, and then another round if
/// there is one left.
pub struct Retry<'a> {
    pub delay: Duration,
    pub attempt: Option<Attempt<'a>>,
}

/// `outcome` is what the round `attempt` comes to when the servers answered `locked` within
/// `elapsed` milliseconds.
pub open spec fn concludes(
    attempt: AttemptView,
    locked: Seq<bool>,
    elapsed: nat,
    outcome: Outcome<'_>,
) -> bool {
    match outcome {
        Outcome::Acquired(lock) => {
            &&& attempt.acquires(locked, elapsed)
            &&& lock.resource@ == attempt.resource
            &&& lock.val@ == attempt.val
            &&& lock.validity_time == attempt.validity(elapsed)
            &&& lock.lock_manager@ == attempt.manager
        },
        Outcome::Rejected(rejection) => {
            &&& !attempt.acquires(locked, elapsed)
            &&& rejection@ == attempt
        },
    }
}

/// `retry` follows a failed round `attempt` when the pause drawn is `pause` milliseconds.
pub open spec fn retries(attempt: AttemptView, pause: u64, retry: Retry<'_>) -> bool {
    &&& retry.delay == millis_span(pause)
    &&& duration_millis(retry.delay) == pause
    &&& match retry.attempt {
        Some(next) => attempt.tries_left > 1 && next@ == attempt.next_try(),
        None => attempt.tries_left <= 1,
    }
}

impl<'a> Attempt<'a> {
    /// What to send to the servers, one command for each in their order.
    pub fn requests(&self) -> (commands: Vec<redis::Cmd>)
        ensures
            commands@.len() == self@.manager.servers.len(),
            forall|i: int|
                0 <= i < commands@.len() ==> cmd_words(#[trigger] commands@[i]) == lock_words(
                    self@.resource,
                    self@.val,
                    self@.ttl,
                ),
    {
        let servers = self.lock_manager.servers();
        let mut commands: Vec<redis::Cmd> = Vec::new();
        let mut i: usize = 0;
        while i < servers.len()
            invariant
                i <= servers@.len(),
                commands@.len() == i,
                forall|j: int|
                    0 <= j < i ==> cmd_words(#[trigger] commands@[j]) == lock_words(
                        self@.resource,
                        self@.val,
                        self@.ttl,
                    ),
            decreases servers@.len() - i,
        {
            commands.push(
                self.lock_manager.lock_instance(
                    self.resource.as_slice(),
                    self.val.as_slice(),
                    self.ttl,
                ),
            );
            i = i + 1;
        }
        commands
    }

    /// What the round comes to: `locked` says which servers granted the lock, and `elapsed` how
    /// long it took until all had answered. A round that leaves nothing of the time to live fails
    /// like one without a quorum.
    pub fn conclude(self, locked: &Vec<bool>, elapsed: Duration) -> (outcome: Outcome<'a>)
        requires
            locked@.len() <= u32::MAX,
        ensures
            concludes(self@, locked@, duration_millis(elapsed) as nat, outcome),
    {
        let n: u32 = count_granted(locked);
        let drift: usize = drift_allowance(self.ttl);
        let taken: u128 = elapsed.as_millis();
        let in_time: bool = drift < self.ttl && taken < (self.ttl - drift) as u128;
        if n >= self.lock_manager.quorum() && in_time {
            let validity_time: usize = self.ttl - drift - taken as usize;
            Outcome::Acquired(
                Lock {
                    resource: self.resource,
                    val: self.val,
                    validity_time,
                    lock_manager: self.lock_manager,
                },
            )
        } else {
            Outcome::Rejected(Rejection { attempt: self })
        }
    }
}

impl<'a> Rejection<'a> {
    /// What to send to the servers to release them, one request for each in their order.
    pub fn release(&self) -> (requests: Vec<ScriptRequest>)
        ensures
            requests@.len() == self@.manager.servers.len(),
            forall|i: int|
                0 <= i < requests@.len() ==> (#[trigger] requests@[i])@ == unlock_call(
                    self@.resource,
                    self@.val,
                ),
    {
        self.attempt.lock_manager.unlock_requests(&self.attempt.resource, &self.attempt.val)
    }

    /// What follows once every server is released, if `pause` is the number of milliseconds to
    /// wait.
    pub fn retry_after(self, pause: u64) -> (retry: Retry<'a>)
        ensures
            retries(self@, pause, retry),
    {
        let attempt = self.attempt;
        Retry {
            delay: Duration::from_millis(pause),
            attempt: if attempt.tries_left > 1 {
                Some(Attempt { tries_left: attempt.tries_left - 1, ..attempt })
            } else {
                None
            },
        }
    }

    /// What follows once every server is released. The pause is drawn at random and is shorter
    /// than the manager's retry delay.
    pub fn retry(self) -> (retry: Retry<'a>)
        requires
            self@.manager.retry_delay > 0,
        ensures
            exists|pause: u64|
                pause < self@.manager.retry_delay && retries(self@, pause, retry),
    {
        let pause: u64 = random_below(self.attempt.lock_manager.retry_delay as u64);
        self.retry_after(pause)
    }

    /// `retry`, or nothing where the retry delay leaves nothing to draw the pause from.
    pub fn checked_retry(self) -> (retry: Option<Retry<'a>>)
        ensures
            match retry {
                Some(retry) => exists|pause: u64|
                    pause < self@.manager.retry_delay && retries(self@, pause, retry),
                None => self@.manager.retry_delay == 0,
            },
    {
        if self.attempt.lock_manager.retry_delay == 0 {
            None
        } else {
            Some(self.retry())
        }
    }
}

} // verus!
