//! Locks that are held on a majority of servers.

use std::sync::Arc;
use std::time::Duration;

use crate::attempt::{Attempt, AttemptView, Operation};
use crate::backend::{cmd_words, open_cluster, opened_cluster};
use crate::clock::{duration_millis, millis_span};
use crate::connection::{
    query_words, unlock_call, RedisClient, RestorableConnection, ScriptRequest,
};
use crate::error::LockError;
use crate::random::fill_with_random_bytes;
use crate::resource::{copy_of, ToLockResource};
use crate::uri::{all_open, clients_of, first_failure, open_all, uris_of, RedisUri};

use vstd::prelude::*;

verus! {

/// How often a lock is attempted before it is given up.
pub const DEFAULT_RETRY_COUNT: u32 = 3;

/// The longest pause between two attempts, in milliseconds.
pub const DEFAULT_RETRY_DELAY: u64 = 200;

/// The length of the value that tells one lock from another, in bytes.
pub const LOCK_ID_LENGTH: usize = 20;

/// The number of servers that make a majority of `servers` servers.
pub open spec fn quorum(servers: nat) -> nat {
    servers / 2 + 1
}

/// The servers that locks are spread over.
#[derive(Debug)]
pub struct LockManagerInner {
    servers: Vec<RestorableConnection>,
}

impl View for LockManagerInner {
    type V = Seq<RestorableConnection>;

    closed spec fn view(&self) -> Seq<RestorableConnection> {
        self.servers@
    }
}

impl LockManagerInner {
    #[verifier::type_invariant]
    closed spec fn countable(self) -> bool {
        self.servers@.len() <= u32::MAX
    }

    /// All servers.
    pub fn servers(&self) -> (servers: &Vec<RestorableConnection>)
        ensures
            servers@ == self@,
            servers@.len() <= u32::MAX,
    {
        proof {
            use_type_invariant(self);
        }
        &self.servers
    }

    /// How many servers have to grant a lock.
    pub fn get_quorum(&self) -> (q: u32)
        ensures
            q == quorum(self@.len()),
    {
        proof {
            use_type_invariant(self);
        }
        (self.servers.len() as u32) / 2 + 1
    }
}

/// What a lock manager is made of.
pub struct ManagerView {
    pub servers: Seq<RestorableConnection>,
    pub retry_count: u32,
    pub retry_delay: Duration,
}

/// The lock manager.
///
/// It knows the servers, and how often and after which pauses to try again.
#[derive(Debug)]
pub struct LockManager {
    lock_manager_inner: Arc<LockManagerInner>,
    retry_count: u32,
    retry_delay: Duration,
}

impl View for LockManager {
    type V = ManagerView;

    closed spec fn view(&self) -> ManagerView {
        ManagerView {
            servers: self.lock_manager_inner@,
            retry_count: self.retry_count,
            retry_delay: self.retry_delay,
        }
    }
}

impl Clone for LockManager {
    fn clone(&self) -> (copy: LockManager)
        ensures
            copy@ == self@,
    {
        LockManager {
            lock_manager_inner: self.lock_manager_inner.clone(),
            retry_count: self.retry_count,
            retry_delay: self.retry_delay,
        }
    }
}

/// A distributed lock that can be acquired and released across multiple Redis instances.
///
/// The lock is on a resource, identified by a unique key, and has a value that identifies the
/// lock owner.
#[derive(Debug)]
pub struct Lock {
    /// The resource to lock. Will be used as the key in Redis.
    pub resource: Vec<u8>,
    /// The value for this lock.
    pub val: Vec<u8>,
    /// Time the lock is still valid, in milliseconds.
    /// Should only be slightly smaller than the requested TTL.
    pub validity_time: usize,
    /// The manager that the lock was taken with.
    pub lock_manager: LockManager,
}

/// A lock that is to be given up when the guard is.
#[derive(Debug)]
pub struct LockGuard {
    pub lock: Lock,
}

impl LockGuard {
    /// What to send to the servers when the guard is given up: what `LockManager::unlock` sends
    /// for its lock.
    pub fn release(&self) -> (requests: Vec<ScriptRequest>)
        ensures
            requests@.len() == self.lock.lock_manager@.servers.len(),
            forall|i: int|
                0 <= i < requests@.len() ==> (#[trigger] requests@[i])@ == unlock_call(
                    self.lock.resource@,
                    self.lock.val@,
                ),
    {
        self.lock.lock_manager.unlock(&self.lock)
    }
}

/// The number of milliseconds in `span`, if the machine counts that far.
fn whole_millis(span: Duration) -> (millis: Result<usize, LockError>)
    ensures
        millis == (if duration_millis(span) <= usize::MAX {
            Ok(duration_millis(span) as usize)
        } else {
            Err(LockError::TtlTooLarge)
        }),
{
    match usize::try_from(span.as_millis()) {
        Ok(millis) => Ok(millis),
        Err(_) => Err(LockError::TtlTooLarge),
    }
}

/// The first answer, if any server answered.
pub open spec fn first_answer(
    results: Seq<Result<Option<Vec<u8>>, LockError>>,
) -> Option<Option<Vec<u8>>>
    decreases results.len(),
{
    if results.len() == 0 {
        None
    } else {
        match results.first() {
            Ok(value) => Some(value),
            Err(_) => first_answer(results.drop_first()),
        }
    }
}

/// Whether the lock `val` is freed, given what was found under its key.
pub open spec fn freed(
    val: Seq<u8>,
    found: Result<Option<Vec<u8>>, LockError>,
) -> Result<bool, LockError> {
    match found {
        Ok(Some(value)) => if value@ == val {
            Ok(false)
        } else {
            Err(LockError::RedisKeyMismatch)
        },
        Ok(None) => Err(LockError::RedisKeyNotFound),
        Err(error) => Err(error),
    }
}

/// How long before the end of its validity a lock in use is prolonged, in milliseconds.
pub const EXTENSION_MARGIN: usize = 500;

/// A lock that is held while a routine runs, and prolonged for as long as it does.
pub struct Using {
    lock_manager: LockManager,
    lock: Lock,
    ttl: Duration,
}

impl Using {
    #[verifier::type_invariant]
    closed spec fn outlasts_margin(self) -> bool {
        self.lock.validity_time >= EXTENSION_MARGIN
    }

    /// The manager that prolongs the lock and gives it up.
    pub closed spec fn manager(self) -> ManagerView {
        self.lock_manager@
    }

    /// The lock that is held.
    pub closed spec fn held(self) -> Lock {
        self.lock
    }

    /// How long the lock is taken and prolonged for.
    pub closed spec fn term(self) -> Duration {
        self.ttl
    }

    /// How long the routine may run on before the lock has to be prolonged: until half a second
    /// before the end of its validity.
    pub fn threshold(&self) -> (wait: Duration)
        ensures
            wait == millis_span((self.held().validity_time - EXTENSION_MARGIN) as u64),
            duration_millis(wait) == self.held().validity_time - EXTENSION_MARGIN,
    {
        proof {
            use_type_invariant(self);
        }
        Duration::from_millis(self.lock.validity_time as u64 - EXTENSION_MARGIN as u64)
    }

    /// The routine is still running when the threshold is reached: prolongs the lock.
    pub fn timed_out(&self) -> (attempt: Result<Attempt, LockError>)
        ensures
            match attempt {
                Ok(attempt) => duration_millis(self.term()) <= usize::MAX && attempt@ == (
                AttemptView {
                    manager: self.manager(),
                    resource: self.held().resource@,
                    value: self.held().val@,
                    ttl: duration_millis(self.term()) as nat,
                    function: Operation::Extend,
                    current_try: 1,
                }),
                Err(error) => duration_millis(self.term()) > usize::MAX && error
                    == LockError::TtlTooLarge,
            },
    {
        self.lock_manager.extend(&self.lock, self.ttl)
    }

    /// Goes on with the prolonged lock, or stops with the reason why it could not be prolonged.
    pub fn extended(self, result: Result<Lock, LockError>) -> (next: Result<Using, LockError>)
        requires
            result matches Ok(lock) ==> lock.validity_time >= EXTENSION_MARGIN,
        ensures
            match result {
                Ok(lock) => next matches Ok(using) && using.held() == lock && using.term()
                    == self.term() && using.manager() == self.manager(),
                Err(error) => next == Err::<Using, LockError>(error),
            },
    {
        match result {
            Ok(lock) => Ok(Using { lock, ..self }),
            Err(error) => Err(error),
        }
    }

    /// The routine has finished: what to send to the servers to give the lock up.
    pub fn finished(&self) -> (requests: Vec<ScriptRequest>)
        ensures
            requests@.len() == self.manager().servers.len(),
            forall|i: int|
                0 <= i < requests@.len() ==> (#[trigger] requests@[i])@ == unlock_call(
                    self.held().resource@,
                    self.held().val@,
                ),
    {
        self.lock_manager.unlock(&self.lock)
    }
}

/// The servers behind clients.
pub open spec fn standalone(clients: Seq<redis::Client>) -> Seq<RestorableConnection> {
    clients.map_values(
        |client: redis::Client| RestorableConnection { client: RedisClient::Standalone(client) },
    )
}

impl ManagerView {
    /// A manager of the given servers that tries again as often as it does by default.
    pub open spec fn with_defaults(self, servers: Seq<RestorableConnection>) -> bool {
        &&& self.servers == servers
        &&& self.retry_count == DEFAULT_RETRY_COUNT
        &&& self.retry_delay == millis_span(DEFAULT_RETRY_DELAY)
        &&& duration_millis(self.retry_delay) == DEFAULT_RETRY_DELAY
    }
}

impl LockManager {
    /// A lock manager of the servers that the connection strings name.
    ///
    /// Sample URI: `"redis://127.0.0.1:6379"`
    pub fn new<T: RedisUri>(uris: Vec<T>) -> (manager: LockManager)
        requires
            uris@.len() <= u32::MAX,
            all_open(uris_of(uris@)),
        ensures
            manager@.with_defaults(standalone(clients_of(uris_of(uris@)))),
    {
        let clients = match open_all(&uris) {
            Ok(clients) => clients,
            Err(_) => {
                assert(false);
                Vec::new()
            },
        };
        LockManager::from_clients(clients)
    }

    /// A lock manager of the servers behind the given clients.
    ///
    /// A lock is held once N/2+1 of the N servers have granted it.
    pub fn from_clients(clients: Vec<redis::Client>) -> (manager: LockManager)
        requires
            clients@.len() <= u32::MAX,
        ensures
            manager@.with_defaults(standalone(clients@)),
    {
        let mut servers: Vec<RestorableConnection> = Vec::new();
        for client in iter: clients
            invariant
                servers@ == standalone(iter.seq().take(iter.index())),
        {
            servers.push(RestorableConnection::new(client));
            assert(iter.seq().take(iter.index() + 1) =~= iter.seq().take(iter.index()).push(
                client,
            ));
            assert(servers@ =~= standalone(iter.seq().take(iter.index() + 1)));
        }
        assert(clients@.take(clients@.len() as int) =~= clients@);
        LockManager::with_servers(servers)
    }

    /// A lock manager of the given servers.
    fn with_servers(servers: Vec<RestorableConnection>) -> (manager: LockManager)
        requires
            servers@.len() <= u32::MAX,
        ensures
            manager@.with_defaults(servers@),
    {
        LockManager {
            lock_manager_inner: Arc::new(LockManagerInner { servers }),
            retry_count: DEFAULT_RETRY_COUNT,
            retry_delay: Duration::from_millis(DEFAULT_RETRY_DELAY),
        }
    }

    /// A lock manager of the servers that the connection strings name, or the reason why the
    /// first string that is no connection string is none.
    pub fn open<T: RedisUri>(uris: Vec<T>) -> (manager: Result<LockManager, LockError>)
        requires
            uris@.len() <= u32::MAX,
        ensures
            match manager {
                Ok(manager) => all_open(uris_of(uris@)) && manager@.with_defaults(
                    standalone(clients_of(uris_of(uris@))),
                ),
                Err(error) => error matches LockError::Redis(cause) && first_failure(
                    uris_of(uris@),
                    cause,
                ),
            },
    {
        match open_all(&uris) {
            Ok(_) => Ok(LockManager::new(uris)),
            Err(error) => Err(LockError::Redis(error)),
        }
    }

    /// A lock manager of one Redis Cluster.
    ///
    /// The URIs are seed nodes of the same logical cluster, so the cluster counts as one server.
    pub fn new_cluster<T: RedisUri>(uris: Vec<T>) -> (manager: Result<
        LockManager,
        redis::RedisError,
    >)
        ensures
            match opened_cluster(uris_of(uris@)) {
                Ok(client) => manager matches Ok(manager) && manager@.with_defaults(
                    seq![RestorableConnection { client: RedisClient::Cluster(client) }],
                ),
                Err(error) => manager == Err::<LockManager, redis::RedisError>(error),
            },
    {
        let mut seeds: Vec<&str> = Vec::new();
        let mut i: usize = 0;
        while i < uris.len()
            invariant
                i <= uris@.len(),
                seeds@.len() == i,
                forall|j: int| 0 <= j < i ==> (#[trigger] seeds@[j])@ == uris@[j].uri(),
            decreases uris@.len() - i,
        {
            seeds.push(uris[i].as_uri());
            i = i + 1;
        }
        assert(seeds@.map_values(|uri: &str| uri@) =~= uris_of(uris@));
        match open_cluster(seeds) {
            Ok(client) => Ok(LockManager::from_cluster_client(client)),
            Err(error) => Err(error),
        }
    }

    /// A lock manager of one Redis Cluster, from a client that is set up already.
    pub fn from_cluster_client(client: redis::cluster::ClusterClient) -> (manager: LockManager)
        ensures
            manager@.with_defaults(
                seq![RestorableConnection { client: RedisClient::Cluster(client) }],
            ),
    {
        let mut servers: Vec<RestorableConnection> = Vec::new();
        servers.push(RestorableConnection::new_cluster(client));
        assert(servers@ =~= seq![RestorableConnection { client: RedisClient::Cluster(client) }]);
        LockManager::with_servers(servers)
    }

    /// Get 20 random bytes from the pseudorandom interface.
    pub fn get_unique_lock_id(&self) -> (id: Result<Vec<u8>, std::io::Error>)
        ensures
            id matches Ok(bytes) && bytes@.len() == LOCK_ID_LENGTH,
    {
        let mut bytes: Vec<u8> = vec![0u8; LOCK_ID_LENGTH];
        fill_with_random_bytes(bytes.as_mut_slice());
        Ok(bytes)
    }

    /// Set retry count and retry delay.
    ///
    /// Retries will be delayed by a random amount of time between `0` and `retry_delay`.
    ///
    /// Retry count defaults to `3`.
    /// Retry delay defaults to `200`.
    pub fn set_retry(&mut self, count: u32, delay: Duration)
        ensures
            final(self)@ == (ManagerView { retry_count: count, retry_delay: delay, ..old(self)@ }),
    {
        self.retry_count = count;
        self.retry_delay = delay;
    }

    /// The servers of this manager.
    pub fn lock_inner(&self) -> (inner: &LockManagerInner)
        ensures
            inner@ == self@.servers,
    {
        &self.lock_manager_inner
    }

    /// How often a lock is attempted.
    pub(crate) fn retry_count(&self) -> (count: u32)
        ensures
            count == self@.retry_count,
    {
        self.retry_count
    }

    /// The upper end of the pause between two attempts.
    pub(crate) fn retry_delay(&self) -> (delay: Duration)
        ensures
            delay == self@.retry_delay,
    {
        self.retry_delay
    }

    /// What to send to the servers to give up the lock `val` on `resource`, one request for each
    /// in their order.
    pub(crate) fn unlock_requests(&self, resource: &Vec<u8>, val: &Vec<u8>) -> (requests: Vec<
        ScriptRequest,
    >)
        ensures
            requests@.len() == self@.servers.len(),
            forall|i: int|
                0 <= i < requests@.len() ==> (#[trigger] requests@[i])@ == unlock_call(
                    resource@,
                    val@,
                ),
    {
        let servers = self.lock_inner().servers();
        let mut requests: Vec<ScriptRequest> = Vec::new();
        let mut i: usize = 0;
        while i < servers.len()
            invariant
                i <= servers@.len(),
                requests@.len() == i,
                forall|j: int|
                    0 <= j < i ==> (#[trigger] requests@[j])@ == unlock_call(resource@, val@),
            decreases servers@.len() - i,
        {
            requests.push(servers[i].unlock(resource, val.as_slice()));
            i = i + 1;
        }
        requests
    }

    /// The first round of taking or prolonging the lock `value` on a resource.
    pub fn exec_or_retry<'a, R: ToLockResource<'a>>(
        &self,
        resource: R,
        value: &[u8],
        ttl: usize,
        function: Operation,
    ) -> (attempt: Attempt)
        ensures
            attempt@ == (AttemptView {
                manager: self@,
                resource: resource.key_bytes(),
                value: value@,
                ttl: ttl as nat,
                function,
                current_try: 1,
            }),
    {
        Attempt::first(self, resource.to_lock_resource().to_vec(), copy_of(value), ttl, function)
    }

    /// Starts to acquire the lock for the given resource and the requested TTL, under a value
    /// that is drawn at random.
    ///
    /// May return `LockError::TtlTooLarge` if `ttl` is too large.
    pub fn lock<'a, R: ToLockResource<'a>>(&self, resource: R, ttl: Duration) -> (attempt: Result<
        Attempt,
        LockError,
    >)
        ensures
            match attempt {
                Ok(attempt) => {
                    &&& duration_millis(ttl) <= usize::MAX
                    &&& attempt@.value.len() == LOCK_ID_LENGTH
                    &&& attempt@ == (AttemptView {
                        manager: self@,
                        resource: resource.key_bytes(),
                        value: attempt@.value,
                        ttl: duration_millis(ttl) as nat,
                        function: Operation::Lock,
                        current_try: 1,
                    })
                },
                Err(error) => duration_millis(ttl) > usize::MAX && error == LockError::TtlTooLarge,
            },
    {
        let resource = resource.to_lock_resource();
        let val = match self.get_unique_lock_id() {
            Ok(val) => val,
            Err(error) => return Err(LockError::Io(error)),
        };
        match whole_millis(ttl) {
            Ok(ttl) => Ok(self.exec_or_retry(&resource, val.as_slice(), ttl, Operation::Lock)),
            Err(error) => Err(error),
        }
    }

    /// Starts to extend the given lock by given time.
    ///
    /// May return `LockError::TtlTooLarge` if `ttl` is too large.
    pub fn extend(&self, lock: &Lock, ttl: Duration) -> (attempt: Result<Attempt, LockError>)
        ensures
            match attempt {
                Ok(attempt) => duration_millis(ttl) <= usize::MAX && attempt@ == (AttemptView {
                    manager: self@,
                    resource: lock.resource@,
                    value: lock.val@,
                    ttl: duration_millis(ttl) as nat,
                    function: Operation::Extend,
                    current_try: 1,
                }),
                Err(error) => duration_millis(ttl) > usize::MAX && error == LockError::TtlTooLarge,
            },
    {
        match whole_millis(ttl) {
            Ok(ttl) => Ok(
                self.exec_or_retry(&lock.resource, lock.val.as_slice(), ttl, Operation::Extend),
            ),
            Err(error) => Err(error),
        }
    }

    /// What to send to the servers to unlock the given lock, one request for each in their
    /// order.
    ///
    /// Unlock is best effort: whatever the servers answer, the lock is done with.
    pub fn unlock(&self, lock: &Lock) -> (requests: Vec<ScriptRequest>)
        ensures
            requests@.len() == self@.servers.len(),
            forall|i: int|
                0 <= i < requests@.len() ==> (#[trigger] requests@[i])@ == unlock_call(
                    lock.resource@,
                    lock.val@,
                ),
    {
        self.unlock_requests(&lock.resource, &lock.val)
    }

    /// What to send to the servers to read the value of a key, one command for each in their
    /// order.
    pub fn query(&self, resource: &[u8]) -> (commands: Vec<redis::Cmd>)
        ensures
            commands@.len() == self@.servers.len(),
            forall|i: int|
                0 <= i < commands@.len() ==> cmd_words(#[trigger] commands@[i]) == query_words(
                    resource@,
                ),
    {
        let servers = self.lock_inner().servers();
        let mut commands: Vec<redis::Cmd> = Vec::new();
        let mut i: usize = 0;
        while i < servers.len()
            invariant
                i <= servers@.len(),
                commands@.len() == i,
                forall|j: int|
                    0 <= j < i ==> cmd_words(#[trigger] commands@[j]) == query_words(resource@),
            decreases servers@.len() - i,
        {
            commands.push(servers[i].query(resource));
            i = i + 1;
        }
        commands
    }

    /// The value of a key, from what came of `query` on each server: servers that have not
    /// answered are passed over, and the first answer counts, whether it is a value or that there
    /// is none.
    pub fn query_redis_for_key_value(
        &self,
        results: Vec<Result<Option<Vec<u8>>, LockError>>,
    ) -> (value: Result<Option<Vec<u8>>, LockError>)
        ensures
            value == match first_answer(results@) {
                Some(value) => Ok(value),
                None => Err(LockError::RedisConnectionFailed),
            },
    {
        assert(results@.skip(0) =~= results@);
        for result in iter: results
            invariant
                first_answer(iter.seq()) == first_answer(iter.seq().skip(iter.index())),
        {
            assert(iter.seq().skip(iter.index()).first() == result);
            assert(iter.seq().skip(iter.index()).drop_first() =~= iter.seq().skip(
                iter.index() + 1,
            ));
            match result {
                Ok(value) => return Ok(value),
                Err(_) => {},
            }
        }
        Err(LockError::RedisConnectionFailed)
    }

    /// Whether to go on trying to acquire a lock, given what one run of `lock` came to: a lock
    /// is returned, and so is `LockError::TtlTooLarge`; after any other error the caller tries
    /// again.
    pub fn acquire_no_guard(&self, result: Result<Lock, LockError>) -> (done: Option<
        Result<Lock, LockError>,
    >)
        ensures
            done == match result {
                Ok(lock) => Some(Ok(lock)),
                Err(LockError::TtlTooLarge) => Some(Err(LockError::TtlTooLarge)),
                Err(_) => None,
            },
    {
        match result {
            Ok(lock) => Some(Ok(lock)),
            Err(LockError::TtlTooLarge) => Some(Err(LockError::TtlTooLarge)),
            Err(_) => None,
        }
    }

    /// `acquire_no_guard`, with the lock in a guard.
    pub fn acquire(&self, result: Result<Lock, LockError>) -> (done: Option<
        Result<LockGuard, LockError>,
    >)
        ensures
            done == match result {
                Ok(lock) => Some(Ok(LockGuard { lock })),
                Err(LockError::TtlTooLarge) => Some(Err(LockError::TtlTooLarge)),
                Err(_) => None,
            },
    {
        match self.acquire_no_guard(result) {
            Some(Ok(lock)) => Some(Ok(LockGuard { lock })),
            Some(Err(error)) => Some(Err(error)),
            None => None,
        }
    }

    /// Checks if the given lock is still held, given what `query_redis_for_key_value` found under
    /// its key.
    ///
    /// `Ok(false)` if the key is present and has the value of the lock. A lock that is no longer
    /// held is reported as an error: `LockError::RedisKeyMismatch` if the key has another value
    /// and `LockError::RedisKeyNotFound` if there is no such key.
    pub fn is_freed(&self, lock: &Lock, found: Result<Option<Vec<u8>>, LockError>) -> (answer:
        Result<bool, LockError>)
        ensures
            answer == freed(lock.val@, found),
    {
        match found {
            Ok(Some(val)) => {
                if val == lock.val {
                    assert(val@ =~= lock.val@);
                    Ok(false)
                } else {
                    Err(LockError::RedisKeyMismatch)
                }
            },
            Ok(None) => Err(LockError::RedisKeyNotFound),
            Err(error) => Err(error),
        }
    }

    /// Starts to hold a lock while a routine runs, given what acquiring it came to.
    pub fn using(&self, acquired: Result<Lock, LockError>, ttl: Duration) -> (using: Result<
        Using,
        LockError,
    >)
        requires
            acquired matches Ok(lock) ==> lock.validity_time >= EXTENSION_MARGIN,
        ensures
            match acquired {
                Ok(lock) => using matches Ok(using) && using.held() == lock && using.term() == ttl
                    && using.manager() == self@,
                Err(error) => using == Err::<Using, LockError>(error),
            },
    {
        match acquired {
            Ok(lock) => Ok(Using { lock_manager: self.clone(), lock, ttl }),
            Err(error) => Err(error),
        }
    }
}

} // verus!
