//! What holds of the calls of a blocking lock manager.

use std::time::Duration;

use crate::backend::{
    call_args, call_code, call_keys, cmd_words, decimal, is_okay, opened_client,
};
use crate::clock::{duration_millis, millis_span};
use crate::connection::{Exchange, ScriptRequest};
use crate::drift::drift_allowance;
use crate::laws::blocking_request_of;
use crate::lock_laws::{
    granting, law_every_granting_server_counts, law_the_quorum_is_the_least_majority,
};
use crate::redlock::{
    Attempt, Lock, LockIdError, Outcome, RedLock, RedLockGuard, Rejection, Retry, UNLOCK_SCRIPT,
};
use crate::server::ServerRequest;
use crate::uri::uris_of;

use vstd::prelude::*;
use vstd::utf8::encode_utf8;

verus! {

// The manager.

/// The quorum of a blocking manager is the least majority of its servers.
pub proof fn law_a_blocking_manager_asks_for_the_least_majority(
    manager: &RedLock,
    servers: &Vec<redis::Client>,
    q: u32,
)
    requires
        call_ensures(RedLock::servers, (manager,), servers),
        call_ensures(RedLock::quorum, (manager,), q),
    ensures
        servers@ == manager@.servers,
        2 * q > servers@.len(),
        2 * (q - 1) <= servers@.len(),
{
}

/// `servers` are the clients that the connection strings name, one for each, in their order.
pub open spec fn opened_from(servers: Seq<redis::Client>, uris: Seq<String>) -> bool {
    &&& servers.len() == uris.len()
    &&& forall|i: int|
        0 <= i < uris.len() ==> opened_client((#[trigger] uris[i])@) == Ok::<
            redis::Client,
            redis::RedisError,
        >(servers[i])
}

/// A blocking manager of connection strings has one server for each, in their order, and tries
/// three times with pauses of up to 200 milliseconds.
pub proof fn law_a_blocking_manager_has_a_server_for_each_string(
    uris: Vec<String>,
    manager: RedLock,
)
    requires
        forall|i: int| 0 <= i < uris@.len() ==> opened_client((#[trigger] uris@[i])@) is Ok,
        call_ensures(RedLock::new::<String>, (uris,), manager),
    ensures
        opened_from(manager@.servers, uris@),
        manager@.retry_count == 3,
        manager@.retry_delay == 200,
{
    let texts = uris_of(uris@);
    assert forall|i: int| 0 <= i < uris@.len() implies opened_client((#[trigger] uris@[i])@)
        == Ok::<redis::Client, redis::RedisError>(manager@.servers[i]) by {
        assert(texts[i] == uris@[i]@);
    }
}

/// Opening connection strings for a blocking manager succeeds exactly if every one of them is a
/// connection string; otherwise the reason is that of the first string that is none.
pub proof fn law_opening_a_blocking_manager_needs_connection_strings(
    uris: Vec<String>,
    result: Result<RedLock, redis::RedisError>,
)
    requires
        call_ensures(RedLock::open::<String>, (uris,), result),
    ensures
        result is Ok <==> forall|i: int|
            0 <= i < uris@.len() ==> opened_client((#[trigger] uris@[i])@) is Ok,
        result matches Ok(manager) ==> {
            &&& opened_from(manager@.servers, uris@)
            &&& manager@.retry_count == 3
            &&& manager@.retry_delay == 200
        },
        result matches Err(error) ==> exists|i: int|
            {
                &&& 0 <= i < uris@.len()
                &&& opened_client((#[trigger] uris@[i])@) == Err::<
                    redis::Client,
                    redis::RedisError,
                >(error)
                &&& forall|j: int| 0 <= j < i ==> opened_client((#[trigger] uris@[j])@) is Ok
            },
{
    let texts = uris_of(uris@);
    match result {
        Ok(manager) => {
            assert forall|i: int| 0 <= i < uris@.len() implies opened_client(
                (#[trigger] uris@[i])@,
            ) == Ok::<redis::Client, redis::RedisError>(manager@.servers[i]) by {
                assert(texts[i] == uris@[i]@);
            }
        },
        Err(error) => {
            let i = choose|i: int|
                0 <= i < texts.len() && opened_client(#[trigger] texts[i]) == Err::<
                    redis::Client,
                    redis::RedisError,
                >(error) && crate::uri::all_open(texts.take(i));
            assert(texts[i] == uris@[i]@);
            assert forall|j: int| 0 <= j < i implies opened_client((#[trigger] uris@[j])@) is Ok by {
                assert(texts.take(i)[j] == uris@[j]@);
            }
        },
    }
}

/// Setting the retries of a blocking manager sets the count and the delay as given, and changes
/// no server.
pub proof fn law_blocking_retries_are_set_as_given(manager: &mut RedLock, count: u32, delay: u32)
    requires
        call_ensures(RedLock::set_retry, (manager, count, delay), ()),
    ensures
        final(manager)@.retry_count == count,
        final(manager)@.retry_delay == delay,
        final(manager)@.servers == old(manager)@.servers,
{
}

/// A copy of a blocking manager has copies of the same servers, and the same retries.
pub proof fn law_a_copy_of_a_blocking_manager_is_the_same(manager: &RedLock, copy: RedLock)
    requires
        call_ensures(<RedLock as Clone>::clone, (manager,), copy),
    ensures
        copy@.servers.len() == manager@.servers.len(),
        forall|i: int|
            0 <= i < copy@.servers.len() ==> cloned(
                manager@.servers[i],
                #[trigger] copy@.servers[i],
            ),
        copy@.retry_count == manager@.retry_count,
        copy@.retry_delay == manager@.retry_delay,
{
}

/// The value of a blocking lock is the first 20 bytes that were read. Fewer are not enough, and a
/// read that failed is reported as it failed.
pub proof fn law_a_blocking_lock_id_is_what_was_read(
    manager: &RedLock,
    read: Result<Vec<u8>, std::io::Error>,
    id: Result<Vec<u8>, LockIdError>,
)
    requires
        call_ensures(RedLock::get_unique_lock_id, (manager, read), id),
    ensures
        id is Ok <==> (read matches Ok(bytes) && bytes@.len() >= 20),
        id matches Ok(val) ==> {
            &&& val@.len() == 20
            &&& forall|i: int| 0 <= i < 20 ==> #[trigger] val@[i] == read->Ok_0@[i]
        },
        read matches Ok(bytes) && bytes@.len() < 20 ==> id == Err::<Vec<u8>, LockIdError>(
            LockIdError::NotEnough,
        ),
        read matches Err(error) ==> id == Err::<Vec<u8>, LockIdError>(LockIdError::Read(error)),
{
}

// One server.

/// `cmd` takes the lock `val` on `key` for `millis` milliseconds by a `SET` that spares a key with
/// a value.
pub open spec fn takes(cmd: redis::Cmd, key: Seq<u8>, val: Seq<u8>, millis: nat) -> bool {
    cmd_words(cmd) == seq![
        encode_utf8("SET"@),
        key,
        val,
        encode_utf8("nx"@),
        encode_utf8("px"@),
        decimal(millis),
    ]
}

/// A blocking manager asks a server for a lock with the whole key, the whole value and the full
/// time to live.
pub proof fn law_a_blocking_lock_is_asked_for_in_full(
    manager: &RedLock,
    key: &[u8],
    val: &[u8],
    ttl: usize,
    cmd: redis::Cmd,
)
    requires
        call_ensures(RedLock::lock_instance, (manager, key, val, ttl), cmd),
    ensures
        cmd_words(cmd) == seq![
            encode_utf8("SET"@),
            key@,
            val@,
            encode_utf8("nx"@),
            encode_utf8("px"@),
            decimal(ttl as nat),
        ],
{
}

/// A blocking manager asks a server to give a lock up by the script for it, run on the whole key
/// and with the whole value.
pub proof fn law_a_blocking_release_is_asked_for_in_full(
    manager: &RedLock,
    key: &[u8],
    val: &[u8],
    request: ScriptRequest,
    call: redis::ScriptInvocation<'_>,
)
    requires
        call_ensures(RedLock::unlock_instance, (manager, key, val), request),
        call_ensures(ScriptRequest::invocation, (&request,), call),
    ensures
        call_code(call) == UNLOCK_SCRIPT@,
        call_keys(call) == seq![key@],
        call_args(call) == seq![val@],
{
}

/// To a blocking manager, a server has granted a lock exactly if it replied `OK`, and given one
/// up exactly if it replied 1.
pub proof fn law_only_ok_and_one_count(
    manager: &RedLock,
    exchange: &Exchange<redis::Value>,
    granted: bool,
    release: &Exchange<i32>,
    done: bool,
)
    requires
        call_ensures(RedLock::lock_instance_reply, (manager, exchange), granted),
        call_ensures(RedLock::unlock_instance_reply, (manager, release), done),
    ensures
        granted <==> (*exchange matches Exchange::Reply(value) && is_okay(value)),
        done <==> *release == Exchange::Reply(1i32),
{
}

/// `requests` ask one server each, in their order, to give the lock `val` on `key` up.
pub open spec fn all_give_up(
    requests: Seq<ScriptRequest>,
    servers: nat,
    key: Seq<u8>,
    val: Seq<u8>,
) -> bool {
    &&& requests.len() == servers
    &&& forall|i: int|
        0 <= i < servers ==> {
            &&& (#[trigger] requests[i])@.code == UNLOCK_SCRIPT@
            &&& requests[i]@.keys == seq![key]
            &&& requests[i]@.args == seq![val]
        }
}

/// A blocking manager asks every server to give a lock up by its key and its value. A guard asks
/// the servers of its lock's manager for the same.
pub proof fn law_blocking_unlocking_asks_every_server<'a, 'b>(
    manager: &RedLock,
    lock: &Lock<'a>,
    requests: Vec<ScriptRequest>,
    guard: &RedLockGuard<'b>,
    guard_requests: Vec<ScriptRequest>,
)
    requires
        call_ensures(RedLock::unlock, (manager, lock), requests),
        call_ensures(RedLockGuard::<'b>::release, (guard,), guard_requests),
    ensures
        requests@.len() == manager@.servers.len(),
        forall|i: int|
            0 <= i < requests@.len() ==> {
                &&& (#[trigger] requests@[i])@.code == UNLOCK_SCRIPT@
                &&& requests@[i]@.keys == seq![lock.resource@]
                &&& requests@[i]@.args == seq![lock.val@]
            },
        all_give_up(
            guard_requests@,
            guard.lock.lock_manager@.servers.len(),
            guard.lock.resource@,
            guard.lock.val@,
        ),
{
}

/// Acquiring with a blocking manager goes on exactly until there is a lock, which is guarded as
/// it is.
pub proof fn law_blocking_acquiring_ends_with_a_lock<'a>(
    manager: &'a RedLock,
    result: Option<Lock<'a>>,
    guard: Option<RedLockGuard<'a>>,
)
    requires
        call_ensures(RedLock::acquire, (manager, result), guard),
    ensures
        result is Some <==> guard is Some,
        result matches Some(lock) ==> guard->Some_0.lock == lock,
{
}

// The rounds of an attempt.

/// An attempt starts with the resource, the value and the full time to live, over the servers of
/// the manager, unless it is not to be tried even once.
pub proof fn law_blocking_locking_starts_with_the_resource<'a>(
    manager: &'a RedLock,
    key: &[u8],
    ttl: usize,
    val: Vec<u8>,
    attempt: Option<Attempt<'a>>,
)
    requires
        call_ensures(RedLock::lock, (manager, key, ttl, val), attempt),
    ensures
        attempt is None <==> manager@.retry_count == 0,
        attempt matches Some(first) ==> {
            &&& first@.manager == manager@
            &&& first@.resource == key@
            &&& first@.val == val@
            &&& first@.ttl == ttl
            &&& first@.tries_left == manager@.retry_count
        },
{
}

/// A round sends every server what the laws on servers speak of: the lock of the round, with its
/// whole value and its full time to live.
pub proof fn law_a_blocking_round_asks_for_its_lock<'a>(
    attempt: Attempt<'a>,
    commands: Vec<redis::Cmd>,
)
    requires
        call_ensures(Attempt::<'a>::requests, (&attempt,), commands),
    ensures
        commands@.len() == attempt@.manager.servers.len(),
        forall|i: int|
            0 <= i < commands@.len() ==> {
                &&& cmd_words(#[trigger] commands@[i]) == seq![
                    encode_utf8("SET"@),
                    attempt@.resource,
                    attempt@.val,
                    encode_utf8("nx"@),
                    encode_utf8("px"@),
                    decimal(attempt@.ttl),
                ]
                &&& blocking_request_of(attempt@) == ServerRequest::Command(
                    cmd_words(commands@[i]),
                )
            },
{
}

/// A round acquires the lock exactly if more than half of the servers granted it and something is
/// left of the time to live once drift and elapsed time are taken off: the lock is valid for just
/// that. Otherwise the round is rejected.
pub proof fn law_a_blocking_majority_in_time_acquires<'a>(
    attempt: Attempt<'a>,
    ttl: usize,
    drift: usize,
    locked: Vec<bool>,
    elapsed: Duration,
    outcome: Outcome<'a>,
)
    requires
        attempt@.ttl == ttl,
        call_ensures(drift_allowance, (ttl,), drift),
        call_ensures(Attempt::<'a>::conclude, (attempt, &locked, elapsed), outcome),
    ensures
        ({
            let in_time = drift + duration_millis(elapsed) < ttl;
            let servers = Set::new(|i: int| 0 <= i < locked@.len() && locked@[i]);
            let majority = 2 * servers.len() > attempt@.manager.servers.len();
            &&& outcome is Acquired <==> in_time && majority
            &&& outcome matches Outcome::Acquired(lock) ==> {
                &&& lock.validity_time + duration_millis(elapsed) + drift == ttl
                &&& lock.validity_time > 0
                &&& lock.validity_time + duration_millis(elapsed) + 2 <= ttl
                &&& lock.resource@ == attempt@.resource
                &&& lock.val@ == attempt@.val
                &&& lock.lock_manager@ == attempt@.manager
            }
            &&& outcome matches Outcome::Rejected(rejection) ==> rejection@ == attempt@
        }),
{
    law_every_granting_server_counts(locked@);
    assert(Set::new(|i: int| 0 <= i < locked@.len() && locked@[i]) =~= granting(locked@));
    law_the_quorum_is_the_least_majority(attempt@.manager.servers.len());
    crate::drift::law_drift_is_about_one_percent(ttl as nat);
}

/// A rejected round asks every server to give the lock of the round up.
pub proof fn law_a_rejected_blocking_round_is_released<'a>(
    rejection: Rejection<'a>,
    requests: Vec<ScriptRequest>,
)
    requires
        call_ensures(Rejection::<'a>::release, (&rejection,), requests),
    ensures
        requests@.len() == rejection@.manager.servers.len(),
        forall|i: int|
            0 <= i < requests@.len() ==> {
                &&& (#[trigger] requests@[i])@.code == UNLOCK_SCRIPT@
                &&& requests@[i]@.keys == seq![rejection@.resource]
                &&& requests@[i]@.args == seq![rejection@.val]
            },
{
}

/// `attempt` is `rejection` with one round less left, and nothing else changed.
pub open spec fn is_next<'a>(rejection: Rejection<'a>, attempt: Attempt<'a>) -> bool {
    &&& attempt@.manager == rejection@.manager
    &&& attempt@.resource == rejection@.resource
    &&& attempt@.val == rejection@.val
    &&& attempt@.ttl == rejection@.ttl
    &&& attempt@.tries_left + 1 == rejection@.tries_left
}

/// After a rejected round there is the pause, and then another round about the same lock exactly
/// if one is left.
pub proof fn law_a_blocking_pause_leads_to_the_next_round<'a>(
    rejection: Rejection<'a>,
    pause: u64,
    retry: Retry<'a>,
)
    requires
        call_ensures(Rejection::<'a>::retry_after, (rejection, pause), retry),
    ensures
        retry.delay == millis_span(pause),
        duration_millis(retry.delay) == pause,
        retry.attempt is Some <==> rejection@.tries_left > 1,
        retry.attempt matches Some(next) ==> is_next(rejection, next),
{
}

/// A pause that is drawn is shorter than the retry delay, and leads to the next round like any
/// other. It is not drawn exactly if there is no delay to draw it from.
pub proof fn law_a_drawn_blocking_pause_is_shorter_than_the_delay<'a>(
    rejection: Rejection<'a>,
    retry: Retry<'a>,
    checked: Option<Retry<'a>>,
)
    requires
        call_ensures(Rejection::<'a>::retry, (rejection,), retry),
        call_ensures(Rejection::<'a>::checked_retry, (rejection,), checked),
    ensures
        duration_millis(retry.delay) < rejection@.manager.retry_delay,
        retry.attempt is Some <==> rejection@.tries_left > 1,
        retry.attempt matches Some(next) ==> is_next(rejection, next),
        checked is None <==> rejection@.manager.retry_delay == 0,
        checked matches Some(drawn) ==> {
            &&& duration_millis(drawn.delay) < rejection@.manager.retry_delay
            &&& drawn.attempt is Some <==> rejection@.tries_left > 1
            &&& drawn.attempt matches Some(next) ==> is_next(rejection, next)
        },
{
}

/// The round `next` follows the round `attempt`, which was rejected.
pub open spec fn follows_blocking<'a>(attempt: Attempt<'a>, next: Attempt<'a>) -> bool {
    exists|
        locked: Vec<bool>,
        elapsed: Duration,
        rejection: Rejection<'a>,
        retry: Retry<'a>,
    | #[trigger]
        rejects_blocking(attempt, locked, elapsed, rejection) && #[trigger] retries_blocking(
            rejection,
            retry,
        ) && retry.attempt == Some(next)
}

/// The round `attempt` ends in `rejection`.
pub open spec fn rejects_blocking<'a>(
    attempt: Attempt<'a>,
    locked: Vec<bool>,
    elapsed: Duration,
    rejection: Rejection<'a>,
) -> bool {
    call_ensures(
        Attempt::<'a>::conclude,
        (attempt, &locked, elapsed),
        Outcome::Rejected(rejection),
    )
}

/// `retry` follows `rejection`.
pub open spec fn retries_blocking<'a>(rejection: Rejection<'a>, retry: Retry<'a>) -> bool {
    ||| call_ensures(Rejection::<'a>::retry, (rejection,), retry)
    ||| call_ensures(Rejection::<'a>::checked_retry, (rejection,), Some(retry))
    ||| exists|pause: u64| #[trigger]
        call_ensures(Rejection::<'a>::retry_after, (rejection, pause), retry)
}

/// Rounds of which each follows the one before, from the first of an attempt to lock a resource.
pub open spec fn locks_blocking<'a>(
    manager: &'a RedLock,
    key: &[u8],
    ttl: usize,
    val: Vec<u8>,
    rounds: Seq<Attempt<'a>>,
) -> bool {
    &&& rounds.len() > 0
    &&& call_ensures(RedLock::lock, (manager, key, ttl, val), Some(rounds[0]))
    &&& forall|i: int|
        0 < i < rounds.len() ==> follows_blocking(rounds[i - 1], #[trigger] rounds[i])
}

proof fn lemma_blocking_rounds<'a>(
    manager: &'a RedLock,
    key: &[u8],
    ttl: usize,
    val: Vec<u8>,
    rounds: Seq<Attempt<'a>>,
    k: int,
)
    requires
        locks_blocking(manager, key, ttl, val, rounds),
        0 <= k < rounds.len(),
    ensures
        rounds[k]@.manager == manager@,
        rounds[k]@.resource == key@,
        rounds[k]@.val == val@,
        rounds[k]@.ttl == ttl,
        rounds[k]@.tries_left == manager@.retry_count - k,
    decreases k,
{
    if k > 0 {
        lemma_blocking_rounds(manager, key, ttl, val, rounds, k - 1);
        assert(follows_blocking(rounds[k - 1], rounds[k]));
    }
}

/// Every round of an attempt to lock a resource asks every server for the same lock: the
/// resource, the value that the attempt was given, and the full time to live.
pub proof fn law_every_blocking_round_asks_every_server_for_one_lock<'a>(
    manager: &'a RedLock,
    servers: &Vec<redis::Client>,
    key: &[u8],
    ttl: usize,
    val: Vec<u8>,
    rounds: Seq<Attempt<'a>>,
    k: int,
    commands: Vec<redis::Cmd>,
)
    requires
        call_ensures(RedLock::servers, (manager,), servers),
        locks_blocking(manager, key, ttl, val, rounds),
        0 <= k < rounds.len(),
        call_ensures(Attempt::<'a>::requests, (&rounds[k],), commands),
    ensures
        commands@.len() == servers@.len(),
        forall|i: int|
            0 <= i < commands@.len() ==> takes(#[trigger] commands@[i], key@, val@, ttl as nat),
{
    lemma_blocking_rounds(manager, key, ttl, val, rounds, k);
    law_a_blocking_round_asks_for_its_lock(rounds[k], commands);
}

/// The lock that an attempt ends in, in whichever round, is the one that the servers were asked
/// for, and it is valid for what drift and the time of the round leave of the time to live. A
/// round ends in the lock exactly if it is in time and more than half of the servers granted it.
pub proof fn law_blocking_locking_ends_in_the_lock_that_was_asked_for<'a>(
    manager: &'a RedLock,
    servers: &Vec<redis::Client>,
    key: &[u8],
    ttl: usize,
    drift: usize,
    val: Vec<u8>,
    rounds: Seq<Attempt<'a>>,
    k: int,
    locked: Vec<bool>,
    elapsed: Duration,
    outcome: Outcome<'a>,
)
    requires
        call_ensures(RedLock::servers, (manager,), servers),
        call_ensures(drift_allowance, (ttl,), drift),
        locks_blocking(manager, key, ttl, val, rounds),
        0 <= k < rounds.len(),
        call_ensures(Attempt::<'a>::conclude, (rounds[k], &locked, elapsed), outcome),
    ensures
        outcome is Acquired <==> drift + duration_millis(elapsed) < ttl && 2 * granting(
            locked@,
        ).len() > servers@.len(),
        outcome matches Outcome::Acquired(lock) ==> {
            &&& lock.resource@ == key@
            &&& lock.val@ == val@
            &&& lock.validity_time > 0
            &&& lock.validity_time + duration_millis(elapsed) + drift == ttl
            &&& lock.lock_manager@ == manager@
        },
{
    lemma_blocking_rounds(manager, key, ttl, val, rounds, k);
    law_a_blocking_majority_in_time_acquires(rounds[k], ttl, drift, locked, elapsed, outcome);
}

/// A rejected round asks every server to give up the lock that was asked for. There is another
/// round exactly while fewer rounds than the retry count that was set have been tried.
pub proof fn law_the_retry_count_bounds_the_blocking_rounds<'a>(
    manager: &'a RedLock,
    key: &[u8],
    ttl: usize,
    val: Vec<u8>,
    rounds: Seq<Attempt<'a>>,
    locked: Vec<bool>,
    elapsed: Duration,
    rejection: Rejection<'a>,
    released: Vec<ScriptRequest>,
    retry: Retry<'a>,
)
    requires
        locks_blocking(manager, key, ttl, val, rounds),
        rejects_blocking(rounds.last(), locked, elapsed, rejection),
        call_ensures(Rejection::<'a>::release, (&rejection,), released),
        retries_blocking(rejection, retry),
    ensures
        all_give_up(released@, manager@.servers.len(), key@, val@),
        retry.attempt is Some <==> rounds.len() < manager@.retry_count,
{
    lemma_blocking_rounds(manager, key, ttl, val, rounds, rounds.len() - 1);
}

/// Every call is accepted: these functions ask nothing of their arguments, except that servers
/// and answers can be counted, and that a pause is drawn from a delay.
pub proof fn law_every_call_of_a_blocking_manager_is_accepted<'a>(
    uris: Vec<String>,
    manager: &'a RedLock,
    read: Result<Vec<u8>, std::io::Error>,
    key: &[u8],
    val: &[u8],
    ttl: usize,
    id: Vec<u8>,
    exchange: &Exchange<redis::Value>,
    release: &Exchange<i32>,
    lock: &Lock<'a>,
    guard: &RedLockGuard<'a>,
    result: Option<Lock<'a>>,
    attempt: Attempt<'a>,
    locked: &Vec<bool>,
    elapsed: Duration,
    rejection: Rejection<'a>,
    pause: u64,
)
    ensures
        uris@.len() <= u32::MAX ==> call_requires(RedLock::open::<String>, (uris,)),
        call_requires(RedLock::servers, (manager,)),
        call_requires(RedLock::quorum, (manager,)),
        call_requires(RedLock::get_unique_lock_id, (manager, read)),
        call_requires(RedLock::lock_instance, (manager, key, val, ttl)),
        call_requires(RedLock::lock_instance_reply, (manager, exchange)),
        call_requires(RedLock::unlock_instance, (manager, key, val)),
        call_requires(RedLock::unlock_instance_reply, (manager, release)),
        call_requires(RedLock::unlock, (manager, lock)),
        call_requires(RedLock::lock, (manager, key, ttl, id)),
        call_requires(RedLock::acquire, (manager, result)),
        call_requires(RedLockGuard::<'a>::release, (guard,)),
        call_requires(Attempt::<'a>::requests, (&attempt,)),
        locked@.len() <= u32::MAX ==> call_requires(
            Attempt::<'a>::conclude,
            (attempt, locked, elapsed),
        ),
        call_requires(Rejection::<'a>::release, (&rejection,)),
        call_requires(Rejection::<'a>::retry_after, (rejection, pause)),
        rejection@.manager.retry_delay > 0 ==> call_requires(
            Rejection::<'a>::retry,
            (rejection,),
        ),
        call_requires(Rejection::<'a>::checked_retry, (rejection,)),
{
}

} // verus!
