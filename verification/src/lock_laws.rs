//! What holds of the calls of a lock manager: from the call that starts an attempt, over its
//! rounds, to the lock or the error that it ends in.

use std::time::Duration;

use crate::attempt::{granted, Attempt, Operation, Outcome, Rejection, Request, Retry};
use crate::backend::{cmd_words, decimal};
use crate::clock::{duration_millis, millis_span};
use crate::connection::{
    extend_call, RestorableConnection, ScriptRequest, EXTEND_SCRIPT, UNLOCK_SCRIPT,
};
use crate::drift::{drift_allowance, law_drift_is_about_one_percent};
use crate::error::LockError;
use crate::laws::{law_a_lock_expires, law_a_lost_lock_is_not_extended, request_of};
use crate::lock::{quorum, Lock, LockManager, LockManagerInner};
use crate::resource::{LockResource, ToLockResource};
use crate::server::{
    lemma_number_of_decimal, live, run_command, run_script, Reply, ServerRequest, Store,
};

use vstd::prelude::*;
use vstd::utf8::encode_utf8;

verus! {

// Majorities.

/// The quorum is the least majority: it is more than half of the servers, and one server less is
/// not.
pub proof fn law_the_quorum_is_the_least_majority(servers: nat)
    ensures
        2 * quorum(servers) > servers,
        2 * (quorum(servers) - 1) <= servers,
{
}

/// The quorum of a manager is the least majority of its servers.
pub proof fn law_a_manager_asks_for_the_least_majority(
    inner: &LockManagerInner,
    servers: &Vec<RestorableConnection>,
    q: u32,
)
    requires
        call_ensures(LockManagerInner::servers, (inner,), servers),
        call_ensures(LockManagerInner::get_quorum, (inner,), q),
    ensures
        2 * q > servers@.len(),
        2 * (q - 1) <= servers@.len(),
{
}

/// The servers that granted what they were asked for.
pub open spec fn granting(locked: Seq<bool>) -> Set<int> {
    Set::new(|i: int| 0 <= i < locked.len() && locked[i])
}

/// The grants that count are the servers that granted.
pub proof fn law_every_granting_server_counts(locked: Seq<bool>)
    ensures
        granting(locked).finite(),
        granted(locked) == granting(locked).len(),
    decreases locked.len(),
{
    if locked.len() == 0 {
        assert(granting(locked) =~= Set::<int>::empty());
    } else {
        let earlier = locked.drop_last();
        let last = locked.len() - 1;
        law_every_granting_server_counts(earlier);
        assert(!granting(earlier).contains(last));
        if locked.last() {
            assert(granting(locked) =~= granting(earlier).insert(last));
        } else {
            assert(granting(locked) =~= granting(earlier));
        }
    }
}

// The rounds of an attempt.

/// The round `next` follows the round `attempt`, which was rejected.
pub open spec fn follows(attempt: Attempt, next: Attempt) -> bool {
    exists|
        locked: Vec<bool>,
        elapsed: Duration,
        rejection: Rejection,
        delay: Duration,
    | #[trigger]
        rejects(attempt, locked, elapsed, rejection) && #[trigger] tries_again_as(
            rejection,
            delay,
            next,
        )
}

/// The round `attempt` ends in `rejection`.
pub open spec fn rejects(
    attempt: Attempt,
    locked: Vec<bool>,
    elapsed: Duration,
    rejection: Rejection,
) -> bool {
    call_ensures(Attempt::conclude, (attempt, &locked, elapsed), Outcome::Rejected(rejection))
}

/// After `rejection` and a pause there is the round `next`.
pub open spec fn tries_again_as(rejection: Rejection, delay: Duration, next: Attempt) -> bool {
    ||| call_ensures(Rejection::retry, (rejection,), Retry::Again { delay, attempt: next })
    ||| exists|pause: u64| #[trigger]
        call_ensures(
            Rejection::retry_after,
            (rejection, pause),
            Retry::Again { delay, attempt: next },
        )
}

/// Rounds of which each follows the one before.
pub open spec fn is_run(rounds: Seq<Attempt>) -> bool {
    &&& rounds.len() > 0
    &&& forall|i: int|
        0 < i < rounds.len() ==> follows(rounds[i - 1], #[trigger] rounds[i])
}

/// Each round is the one before with another number, and nothing else changes.
proof fn lemma_next_round(attempt: Attempt, next: Attempt)
    requires
        follows(attempt, next),
    ensures
        next@.manager == attempt@.manager,
        next@.resource == attempt@.resource,
        next@.value == attempt@.value,
        next@.ttl == attempt@.ttl,
        next@.function == attempt@.function,
        next@.current_try == attempt@.current_try + 1,
{
}

/// A later round is about the same lock as the first: the same servers, resource, value, time to
/// live and operation. Only its number grows, by one with each round.
pub proof fn law_a_later_round_is_about_the_same_lock(rounds: Seq<Attempt>, k: int)
    requires
        is_run(rounds),
        0 <= k < rounds.len(),
    ensures
        rounds[k]@.manager == rounds[0]@.manager,
        rounds[k]@.resource == rounds[0]@.resource,
        rounds[k]@.value == rounds[0]@.value,
        rounds[k]@.ttl == rounds[0]@.ttl,
        rounds[k]@.function == rounds[0]@.function,
        rounds[k]@.current_try == rounds[0]@.current_try + k,
    decreases k,
{
    if k > 0 {
        law_a_later_round_is_about_the_same_lock(rounds, k - 1);
        lemma_next_round(rounds[k - 1], rounds[k]);
    }
}

/// `request` is about the lock `val` on `key` for `millis` milliseconds: it takes the lock by a
/// `SET` that spares a key with a value, or prolongs it by the script for that.
pub open spec fn asks(
    request: Request,
    function: Operation,
    key: Seq<u8>,
    val: Seq<u8>,
    millis: nat,
) -> bool {
    match request {
        Request::Lock(cmd) => function is Lock && cmd_words(cmd) == seq![
            encode_utf8("SET"@),
            key,
            val,
            encode_utf8("NX"@),
            encode_utf8("PX"@),
            decimal(millis),
        ],
        Request::Extend(script) => {
            &&& function is Extend
            &&& script@.code == EXTEND_SCRIPT@
            &&& script@.keys == seq![key]
            &&& script@.args == seq![val, decimal(millis)]
        },
    }
}

/// What a round sends is what the laws on servers speak of.
pub proof fn law_a_round_sends_what_the_laws_speak_of(attempt: Attempt, requests: Vec<Request>)
    requires
        call_ensures(Attempt::requests, (&attempt,), requests),
    ensures
        requests@.len() == attempt@.manager.servers.len(),
        forall|i: int|
            0 <= i < requests@.len() ==> match #[trigger] requests@[i] {
                Request::Lock(cmd) => request_of(attempt@) == ServerRequest::Command(
                    cmd_words(cmd),
                ),
                Request::Extend(script) => request_of(attempt@) == ServerRequest::Script(script@),
            },
{
    assert forall|i: int| 0 <= i < requests@.len() implies match #[trigger] requests@[i] {
        Request::Lock(cmd) => request_of(attempt@) == ServerRequest::Command(cmd_words(cmd)),
        Request::Extend(script) => request_of(attempt@) == ServerRequest::Script(script@),
    } by {
        assert(attempt@.sends(requests@[i]));
    }
}

/// A round asks every server for its own lock, with its whole value and its full time to live:
/// to take it by a `SET` that spares a key with a value, or to prolong it by the script for that.
pub proof fn law_a_round_asks_for_its_lock(attempt: Attempt, requests: Vec<Request>)
    requires
        call_ensures(Attempt::requests, (&attempt,), requests),
    ensures
        requests@.len() == attempt@.manager.servers.len(),
        attempt@.function is Lock ==> forall|i: int|
            0 <= i < requests@.len() ==> (#[trigger] requests@[i] matches Request::Lock(cmd)
                && cmd_words(cmd) == seq![
                encode_utf8("SET"@),
                attempt@.resource,
                attempt@.value,
                encode_utf8("NX"@),
                encode_utf8("PX"@),
                decimal(attempt@.ttl),
            ]),
        attempt@.function is Extend ==> forall|i: int|
            0 <= i < requests@.len() ==> (#[trigger] requests@[i] matches Request::Extend(script)
                && script@.code == EXTEND_SCRIPT@ && script@.keys == seq![attempt@.resource]
                && script@.args == seq![attempt@.value, decimal(attempt@.ttl)]),
        all_ask(
            requests@,
            attempt@.function,
            attempt@.resource,
            attempt@.value,
            attempt@.ttl,
        ),
{
    assert forall|i: int| 0 <= i < requests@.len() implies asks(
        #[trigger] requests@[i],
        attempt@.function,
        attempt@.resource,
        attempt@.value,
        attempt@.ttl,
    ) by {
        assert(attempt@.sends(requests@[i]));
    }
    if attempt@.function is Lock {
        assert forall|i: int| 0 <= i < requests@.len() implies (
        #[trigger] requests@[i] matches Request::Lock(cmd) && cmd_words(cmd) == seq![
            encode_utf8("SET"@),
            attempt@.resource,
            attempt@.value,
            encode_utf8("NX"@),
            encode_utf8("PX"@),
            decimal(attempt@.ttl),
        ]) by {
            assert(attempt@.sends(requests@[i]));
        }
    } else {
        assert forall|i: int| 0 <= i < requests@.len() implies (
        #[trigger] requests@[i] matches Request::Extend(script) && script@.code == EXTEND_SCRIPT@
            && script@.keys == seq![attempt@.resource] && script@.args == seq![
            attempt@.value,
            decimal(attempt@.ttl),
        ]) by {
            assert(attempt@.sends(requests@[i]));
        }
    }
}

/// How a round ends is decided by its majority and its time: out of time if drift and elapsed
/// time use up the time to live; otherwise acquired if more than half of the servers granted it,
/// for what is left of the time to live; otherwise rejected.
pub proof fn law_a_majority_in_time_acquires(
    attempt: Attempt,
    ttl: usize,
    drift: usize,
    locked: Vec<bool>,
    elapsed: Duration,
    outcome: Outcome,
)
    requires
        attempt@.ttl == ttl,
        call_ensures(drift_allowance, (ttl,), drift),
        call_ensures(Attempt::conclude, (attempt, &locked, elapsed), outcome),
    ensures
        ({
            let in_time = drift + duration_millis(elapsed) < ttl;
            let servers = Set::new(|i: int| 0 <= i < locked@.len() && locked@[i]);
            let majority = 2 * servers.len() > attempt@.manager.servers.len();
            &&& !in_time <==> outcome == Outcome::Finished(Err(LockError::TtlExceeded))
            &&& in_time && majority <==> outcome is Finished && outcome->Finished_0 is Ok
            &&& in_time && !majority <==> outcome is Rejected
            &&& outcome matches Outcome::Finished(Ok(lock)) ==> {
                &&& lock.validity_time + duration_millis(elapsed) + drift == ttl
                &&& lock.validity_time > 0
                &&& lock.resource@ == attempt@.resource
                &&& lock.val@ == attempt@.value
                &&& lock.lock_manager@ == attempt@.manager
            }
            &&& outcome matches Outcome::Rejected(rejection) ==> rejection@ == attempt@
        }),
{
    law_every_granting_server_counts(locked@);
    assert(Set::new(|i: int| 0 <= i < locked@.len() && locked@[i]) =~= granting(locked@));
    law_the_quorum_is_the_least_majority(attempt@.manager.servers.len());
}

/// A rejected round asks every server to give the lock of the round up.
pub proof fn law_a_rejected_round_is_released(rejection: Rejection, requests: Vec<ScriptRequest>)
    requires
        call_ensures(Rejection::release, (&rejection,), requests),
    ensures
        requests@.len() == rejection@.manager.servers.len(),
        forall|i: int|
            0 <= i < requests@.len() ==> {
                &&& (#[trigger] requests@[i])@.code == UNLOCK_SCRIPT@
                &&& requests@[i]@.keys == seq![rejection@.resource]
                &&& requests@[i]@.args == seq![rejection@.value]
            },
{
}

/// There is another round after the pause exactly while fewer rounds than the retry count have
/// been tried, if the retry delay can be counted in milliseconds at all.
pub proof fn law_a_pause_leads_to_the_next_round(rejection: Rejection, pause: u64, retry: Retry)
    requires
        call_ensures(Rejection::retry_after, (rejection, pause), retry),
    ensures
        ({
            let more = rejection@.current_try < rejection@.manager.retry_count;
            let countable = duration_millis(rejection@.manager.retry_delay) <= u64::MAX;
            &&& retry is Again <==> more && countable
            &&& retry == Retry::GiveUp(LockError::TtlTooLarge) <==> more && !countable
            &&& retry == Retry::GiveUp(LockError::Unavailable) <==> !more
            &&& retry matches Retry::Again { delay, attempt } ==> {
                &&& delay == millis_span(pause)
                &&& duration_millis(delay) == pause
                &&& attempt@.manager == rejection@.manager
                &&& attempt@.resource == rejection@.resource
                &&& attempt@.value == rejection@.value
                &&& attempt@.ttl == rejection@.ttl
                &&& attempt@.function == rejection@.function
                &&& attempt@.current_try == rejection@.current_try + 1
            }
        }),
{
}

/// A pause that is drawn is shorter than the retry delay, or there is none if the delay holds no
/// millisecond; and it leads to the next round like any other pause.
pub proof fn law_a_drawn_pause_is_shorter_than_the_delay(rejection: Rejection, retry: Retry)
    requires
        call_ensures(Rejection::retry, (rejection,), retry),
    ensures
        ({
            let more = rejection@.current_try < rejection@.manager.retry_count;
            let longest = duration_millis(rejection@.manager.retry_delay);
            &&& retry is Again <==> more && longest <= u64::MAX
            &&& retry == Retry::GiveUp(LockError::TtlTooLarge) <==> more && longest > u64::MAX
            &&& retry == Retry::GiveUp(LockError::Unavailable) <==> !more
            &&& retry matches Retry::Again { delay, attempt } ==> {
                &&& duration_millis(delay) < longest || (duration_millis(delay) == 0 && longest
                    == 0)
                &&& attempt@.manager == rejection@.manager
                &&& attempt@.resource == rejection@.resource
                &&& attempt@.value == rejection@.value
                &&& attempt@.ttl == rejection@.ttl
                &&& attempt@.function == rejection@.function
                &&& attempt@.current_try == rejection@.current_try + 1
            }
        }),
{
}

// From the first call to the lock.

/// `key` is the key that `name` stands for.
pub open spec fn names<'a, R: ToLockResource<'a>>(name: R, key: Seq<u8>) -> bool {
    exists|resource: LockResource<'a>, bytes: Vec<u8>|
        {
            &&& #[trigger] call_ensures(R::to_lock_resource, (name,), resource)
            &&& #[trigger] call_ensures(LockResource::<'a>::to_vec, (&resource,), bytes)
            &&& bytes@ == key
        }
}

/// An attempt to lock a resource starts with the key of the resource, a value of 20 bytes and the
/// full time to live, as the first round over the servers of the manager. Only a time to live
/// that cannot be counted is refused.
pub proof fn law_locking_starts_with_the_resource<'a, R: ToLockResource<'a>>(
    manager: &LockManager,
    name: R,
    key: Seq<u8>,
    ttl: Duration,
    result: Result<Attempt, LockError>,
)
    requires
        names(name, key),
        call_ensures(LockManager::lock::<R>, (manager, name, ttl), result),
    ensures
        result is Ok <==> duration_millis(ttl) <= usize::MAX,
        result is Err ==> result->Err_0 == LockError::TtlTooLarge,
        result matches Ok(attempt) ==> {
            &&& attempt@.manager == manager@
            &&& attempt@.resource == key
            &&& attempt@.value.len() == 20
            &&& attempt@.ttl == duration_millis(ttl)
            &&& attempt@.function is Lock
            &&& attempt@.current_try == 1
        },
{
}

/// An attempt to extend a lock starts with the key and the value of the lock and the full new
/// time to live. Only a time to live that cannot be counted is refused.
pub proof fn law_extending_starts_with_the_lock(
    manager: &LockManager,
    lock: &Lock,
    ttl: Duration,
    result: Result<Attempt, LockError>,
)
    requires
        call_ensures(LockManager::extend, (manager, lock, ttl), result),
    ensures
        result is Ok <==> duration_millis(ttl) <= usize::MAX,
        result is Err ==> result->Err_0 == LockError::TtlTooLarge,
        result matches Ok(attempt) ==> {
            &&& attempt@.manager == manager@
            &&& attempt@.resource == lock.resource@
            &&& attempt@.value == lock.val@
            &&& attempt@.ttl == duration_millis(ttl)
            &&& attempt@.function is Extend
            &&& attempt@.current_try == 1
        },
{
}

/// Any attempt starts with what it is about, as its first round.
pub proof fn law_an_attempt_starts_with_what_it_is_about<'a, R: ToLockResource<'a>>(
    manager: &LockManager,
    name: R,
    key: Seq<u8>,
    value: &[u8],
    ttl: usize,
    function: Operation,
    attempt: Attempt,
)
    requires
        names(name, key),
        call_ensures(
            LockManager::exec_or_retry::<R>,
            (manager, name, value, ttl, function),
            attempt,
        ),
    ensures
        attempt@.manager == manager@,
        attempt@.resource == key,
        attempt@.value == value@,
        attempt@.ttl == ttl,
        attempt@.function == function,
        attempt@.current_try == 1,
{
}

/// The rounds of an attempt to lock a resource.
pub open spec fn locks<'a, R: ToLockResource<'a>>(
    manager: &LockManager,
    name: R,
    ttl: Duration,
    rounds: Seq<Attempt>,
) -> bool {
    &&& is_run(rounds)
    &&& call_ensures(LockManager::lock::<R>, (manager, name, ttl), Ok(rounds[0]))
}

/// The rounds of an attempt to extend a lock.
pub open spec fn extends(
    manager: &LockManager,
    lock: &Lock,
    ttl: Duration,
    rounds: Seq<Attempt>,
) -> bool {
    &&& is_run(rounds)
    &&& call_ensures(LockManager::extend, (manager, lock, ttl), Ok(rounds[0]))
}

/// The servers of a manager.
pub open spec fn serves(manager: &LockManager, servers: Seq<RestorableConnection>) -> bool {
    exists|inner: &LockManagerInner, list: &Vec<RestorableConnection>|
        {
            &&& #[trigger] call_ensures(LockManager::lock_inner, (manager,), inner)
            &&& #[trigger] call_ensures(LockManagerInner::servers, (inner,), list)
            &&& list@ == servers
        }
}

/// All of `requests` ask for the lock `val` on `key` for `millis` milliseconds.
pub open spec fn all_ask(
    requests: Seq<Request>,
    function: Operation,
    key: Seq<u8>,
    val: Seq<u8>,
    millis: nat,
) -> bool {
    forall|i: int|
        0 <= i < requests.len() ==> asks(#[trigger] requests[i], function, key, val, millis)
}

/// Every round of an attempt to lock a resource asks every server of the manager for the same
/// lock: the key of the resource, one value of 20 bytes for all rounds and servers, and the full
/// time to live.
pub proof fn law_every_round_asks_every_server_for_one_lock<'a, R: ToLockResource<'a>>(
    manager: &LockManager,
    servers: Seq<RestorableConnection>,
    name: R,
    key: Seq<u8>,
    ttl: Duration,
    rounds: Seq<Attempt>,
    j: int,
    earlier: Vec<Request>,
    k: int,
    later: Vec<Request>,
)
    requires
        serves(manager, servers),
        names(name, key),
        locks(manager, name, ttl, rounds),
        0 <= j <= k < rounds.len(),
        call_ensures(Attempt::requests, (&rounds[j],), earlier),
        call_ensures(Attempt::requests, (&rounds[k],), later),
    ensures
        earlier@.len() == servers.len(),
        later@.len() == servers.len(),
        exists|val: Seq<u8>|
            {
                &&& val.len() == 20
                &&& #[trigger] all_ask(
                    earlier@,
                    Operation::Lock,
                    key,
                    val,
                    duration_millis(ttl) as nat,
                )
                &&& all_ask(later@, Operation::Lock, key, val, duration_millis(ttl) as nat)
            },
{
    law_locking_starts_with_the_resource(manager, name, key, ttl, Ok(rounds[0]));
    law_a_later_round_is_about_the_same_lock(rounds, j);
    law_a_later_round_is_about_the_same_lock(rounds, k);
    law_a_round_asks_for_its_lock(rounds[j], earlier);
    law_a_round_asks_for_its_lock(rounds[k], later);
    let val = rounds[0]@.value;
    assert(all_ask(earlier@, Operation::Lock, key, val, duration_millis(ttl) as nat));
}

/// Every round of an attempt to extend a lock asks every server of the manager to prolong this
/// lock, by its key and its value, for the full new time to live.
pub proof fn law_every_round_asks_every_server_to_extend_the_lock(
    manager: &LockManager,
    servers: Seq<RestorableConnection>,
    lock: &Lock,
    ttl: Duration,
    rounds: Seq<Attempt>,
    k: int,
    requests: Vec<Request>,
)
    requires
        serves(manager, servers),
        extends(manager, lock, ttl, rounds),
        0 <= k < rounds.len(),
        call_ensures(Attempt::requests, (&rounds[k],), requests),
    ensures
        requests@.len() == servers.len(),
        forall|i: int|
            0 <= i < servers.len() ==> asks(
                #[trigger] requests@[i],
                Operation::Extend,
                lock.resource@,
                lock.val@,
                duration_millis(ttl) as nat,
            ),
{
    law_extending_starts_with_the_lock(manager, lock, ttl, Ok(rounds[0]));
    law_a_later_round_is_about_the_same_lock(rounds, k);
    law_a_round_asks_for_its_lock(rounds[k], requests);
}

/// The lock that an attempt to lock a resource ends in, in whichever round, is the one that the
/// servers were asked for, and it is valid for what drift and the time of the round leave of the
/// time to live. A round that is in time ends in the lock exactly if more than half of the
/// servers granted it, and is out of time only if drift and elapsed time use the time to live up.
pub proof fn law_locking_ends_in_the_lock_that_was_asked_for<'a, R: ToLockResource<'a>>(
    manager: &LockManager,
    servers: Seq<RestorableConnection>,
    name: R,
    key: Seq<u8>,
    ttl: Duration,
    drift: usize,
    rounds: Seq<Attempt>,
    k: int,
    requests: Vec<Request>,
    locked: Vec<bool>,
    elapsed: Duration,
    outcome: Outcome,
)
    requires
        serves(manager, servers),
        names(name, key),
        locks(manager, name, ttl, rounds),
        0 <= k < rounds.len(),
        call_ensures(drift_allowance, (duration_millis(ttl) as usize,), drift),
        call_ensures(Attempt::requests, (&rounds[k],), requests),
        call_ensures(Attempt::conclude, (rounds[k], &locked, elapsed), outcome),
    ensures
        ({
            let in_time = drift + duration_millis(elapsed) < duration_millis(ttl);
            let majority = 2 * granting(locked@).len() > servers.len();
            &&& !in_time <==> outcome == Outcome::Finished(Err(LockError::TtlExceeded))
            &&& in_time && majority <==> outcome is Finished && outcome->Finished_0 is Ok
            &&& in_time && !majority <==> outcome is Rejected
            &&& outcome matches Outcome::Finished(Ok(lock)) ==> {
                &&& lock.resource@ == key
                &&& lock.val@.len() == 20
                &&& forall|i: int|
                    0 <= i < requests@.len() ==> asks(
                        #[trigger] requests@[i],
                        Operation::Lock,
                        lock.resource@,
                        lock.val@,
                        duration_millis(ttl) as nat,
                    )
                &&& lock.validity_time > 0
                &&& lock.validity_time + duration_millis(elapsed) + drift == duration_millis(ttl)
                &&& lock.lock_manager@ == manager@
            }
        }),
{
    law_locking_starts_with_the_resource(manager, name, key, ttl, Ok(rounds[0]));
    law_a_later_round_is_about_the_same_lock(rounds, k);
    law_a_round_asks_for_its_lock(rounds[k], requests);
    law_a_majority_in_time_acquires(
        rounds[k],
        duration_millis(ttl) as usize,
        drift,
        locked,
        elapsed,
        outcome,
    );
}

/// The lock that an attempt to extend a lock ends in has the same key and value, and is valid for
/// what drift and the time of the round leave of the new time to live. It is decided by majority
/// and time like any other.
pub proof fn law_extending_ends_in_the_same_lock(
    manager: &LockManager,
    servers: Seq<RestorableConnection>,
    lock: &Lock,
    ttl: Duration,
    drift: usize,
    rounds: Seq<Attempt>,
    k: int,
    locked: Vec<bool>,
    elapsed: Duration,
    outcome: Outcome,
)
    requires
        serves(manager, servers),
        extends(manager, lock, ttl, rounds),
        0 <= k < rounds.len(),
        call_ensures(drift_allowance, (duration_millis(ttl) as usize,), drift),
        call_ensures(Attempt::conclude, (rounds[k], &locked, elapsed), outcome),
    ensures
        ({
            let in_time = drift + duration_millis(elapsed) < duration_millis(ttl);
            let majority = 2 * granting(locked@).len() > servers.len();
            &&& !in_time <==> outcome == Outcome::Finished(Err(LockError::TtlExceeded))
            &&& in_time && majority <==> outcome is Finished && outcome->Finished_0 is Ok
            &&& in_time && !majority <==> outcome is Rejected
            &&& outcome matches Outcome::Finished(Ok(extended)) ==> {
                &&& extended.resource@ == lock.resource@
                &&& extended.val@ == lock.val@
                &&& extended.validity_time > 0
                &&& extended.validity_time + duration_millis(elapsed) + drift
                    == duration_millis(ttl)
                &&& extended.lock_manager@ == manager@
            }
        }),
{
    law_extending_starts_with_the_lock(manager, lock, ttl, Ok(rounds[0]));
    law_a_later_round_is_about_the_same_lock(rounds, k);
    law_a_majority_in_time_acquires(
        rounds[k],
        duration_millis(ttl) as usize,
        drift,
        locked,
        elapsed,
        outcome,
    );
}

/// A rejected round of an attempt to lock a resource asks every server to give up the very lock
/// that the round asked for.
pub proof fn law_what_was_asked_for_is_released<'a, R: ToLockResource<'a>>(
    manager: &LockManager,
    servers: Seq<RestorableConnection>,
    name: R,
    key: Seq<u8>,
    ttl: Duration,
    rounds: Seq<Attempt>,
    k: int,
    asked: Vec<Request>,
    locked: Vec<bool>,
    elapsed: Duration,
    rejection: Rejection,
    released: Vec<ScriptRequest>,
)
    requires
        serves(manager, servers),
        names(name, key),
        locks(manager, name, ttl, rounds),
        0 <= k < rounds.len(),
        call_ensures(Attempt::requests, (&rounds[k],), asked),
        rejects(rounds[k], locked, elapsed, rejection),
        call_ensures(Rejection::release, (&rejection,), released),
    ensures
        asked@.len() == servers.len(),
        released@.len() == servers.len(),
        forall|i: int|
            0 <= i < servers.len() ==> {
                &&& (#[trigger] released@[i])@.code == UNLOCK_SCRIPT@
                &&& released@[i]@.keys == seq![key]
                &&& released@[i]@.args.len() == 1
                &&& asks(
                    asked@[i],
                    Operation::Lock,
                    key,
                    released@[i]@.args[0],
                    duration_millis(ttl) as nat,
                )
            },
{
    law_locking_starts_with_the_resource(manager, name, key, ttl, Ok(rounds[0]));
    law_a_later_round_is_about_the_same_lock(rounds, k);
    law_a_round_asks_for_its_lock(rounds[k], asked);
    law_a_rejected_round_is_released(rejection, released);
    assert forall|i: int| 0 <= i < servers.len() implies {
        &&& (#[trigger] released@[i])@.code == UNLOCK_SCRIPT@
        &&& released@[i]@.keys == seq![key]
        &&& released@[i]@.args.len() == 1
        &&& asks(
            asked@[i],
            Operation::Lock,
            key,
            released@[i]@.args[0],
            duration_millis(ttl) as nat,
        )
    } by {
        assert(asks(
            asked@[i],
            rounds[k]@.function,
            rounds[k]@.resource,
            rounds[k]@.value,
            rounds[k]@.ttl,
        ));
    }
}

/// An attempt to lock a resource is given up as unavailable exactly after as many rejected rounds
/// as the retry count that was set, or after one if it is zero; before that, there is another
/// round, if the retry delay that was set can be counted.
pub proof fn law_the_retry_count_bounds_the_rounds<'a, R: ToLockResource<'a>>(
    manager: &mut LockManager,
    count: u32,
    delay: Duration,
    name: R,
    key: Seq<u8>,
    ttl: Duration,
    rounds: Seq<Attempt>,
    locked: Vec<bool>,
    elapsed: Duration,
    rejection: Rejection,
    retry: Retry,
)
    requires
        call_ensures(LockManager::set_retry, (manager, count, delay), ()),
        names(name, key),
        locks(&*final(manager), name, ttl, rounds),
        rejects(rounds.last(), locked, elapsed, rejection),
        call_ensures(Rejection::retry, (rejection,), retry) || exists|pause: u64| #[trigger]
            call_ensures(Rejection::retry_after, (rejection, pause), retry),
    ensures
        retry is Again <==> rounds.len() < count && duration_millis(delay) <= u64::MAX,
        retry == Retry::GiveUp(LockError::TtlTooLarge) <==> rounds.len() < count
            && duration_millis(delay) > u64::MAX,
        retry == Retry::GiveUp(LockError::Unavailable) <==> rounds.len() >= count,
{
    law_locking_starts_with_the_resource(&*final(manager), name, key, ttl, Ok(rounds[0]));
    law_a_later_round_is_about_the_same_lock(rounds, rounds.len() - 1);
    if call_ensures(Rejection::retry, (rejection,), retry) {
        law_a_drawn_pause_is_shorter_than_the_delay(rejection, retry);
    } else {
        let pause = choose|pause: u64| #[trigger]
            call_ensures(Rejection::retry_after, (rejection, pause), retry);
        law_a_pause_leads_to_the_next_round(rejection, pause, retry);
    }
}

/// A server that grants what a round of an attempt to lock a resource asks it for has the value
/// of the lock under the key of the resource for the full time to live, and so for as long as the
/// lock that the round ends in is valid.
pub proof fn law_a_granted_lock_lives_for_its_validity<'a, R: ToLockResource<'a>>(
    manager: &LockManager,
    servers: Seq<RestorableConnection>,
    name: R,
    key: Seq<u8>,
    ttl: Duration,
    drift: usize,
    rounds: Seq<Attempt>,
    k: int,
    requests: Vec<Request>,
    i: int,
    locked: Vec<bool>,
    elapsed: Duration,
    lock: Lock,
    store: Store,
    now: int,
    later: int,
)
    requires
        serves(manager, servers),
        names(name, key),
        locks(manager, name, ttl, rounds),
        0 <= k < rounds.len(),
        call_ensures(drift_allowance, (duration_millis(ttl) as usize,), drift),
        call_ensures(Attempt::requests, (&rounds[k],), requests),
        call_ensures(
            Attempt::conclude,
            (rounds[k], &locked, elapsed),
            Outcome::Finished(Ok(lock)),
        ),
        0 <= i < requests@.len(),
        run_command(store, now, cmd_words(requests@[i]->Lock_0)).1 == Reply::Okay,
        now <= later <= now + duration_millis(ttl),
    ensures
        requests@[i] is Lock,
        live(run_command(store, now, cmd_words(requests@[i]->Lock_0)).0, later, key) == Some(
            lock.val@,
        ),
        lock.validity_time + duration_millis(elapsed) < duration_millis(ttl),
{
    law_locking_ends_in_the_lock_that_was_asked_for(
        manager,
        servers,
        name,
        key,
        ttl,
        drift,
        rounds,
        k,
        requests,
        locked,
        elapsed,
        Outcome::Finished(Ok(lock)),
    );
    law_drift_is_about_one_percent(duration_millis(ttl) as nat);
    law_a_lock_expires(store, now, later, key, lock.val@, duration_millis(ttl) as nat);
}

/// A server that grants what a round of an attempt to extend a lock asks it for has the value of
/// the lock under its key for the full new time to live, and so for as long as the extended lock
/// is valid.
pub proof fn law_an_extended_lock_lives_for_its_validity(
    manager: &LockManager,
    servers: Seq<RestorableConnection>,
    lock: &Lock,
    ttl: Duration,
    drift: usize,
    rounds: Seq<Attempt>,
    k: int,
    requests: Vec<Request>,
    i: int,
    locked: Vec<bool>,
    elapsed: Duration,
    extended: Lock,
    store: Store,
    now: int,
    later: int,
)
    requires
        serves(manager, servers),
        extends(manager, lock, ttl, rounds),
        0 <= k < rounds.len(),
        call_ensures(drift_allowance, (duration_millis(ttl) as usize,), drift),
        call_ensures(Attempt::requests, (&rounds[k],), requests),
        call_ensures(
            Attempt::conclude,
            (rounds[k], &locked, elapsed),
            Outcome::Finished(Ok(extended)),
        ),
        0 <= i < requests@.len(),
        run_script(store, now, requests@[i]->Extend_0@).1 == Reply::Int(1),
        now <= later <= now + duration_millis(ttl),
    ensures
        requests@[i] is Extend,
        live(run_script(store, now, requests@[i]->Extend_0@).0, later, lock.resource@) == Some(
            lock.val@,
        ),
        extended.resource@ == lock.resource@,
        extended.val@ == lock.val@,
        extended.validity_time + duration_millis(elapsed) < duration_millis(ttl),
{
    law_every_round_asks_every_server_to_extend_the_lock(
        manager,
        servers,
        lock,
        ttl,
        rounds,
        k,
        requests,
    );
    law_extending_ends_in_the_same_lock(
        manager,
        servers,
        lock,
        ttl,
        drift,
        rounds,
        k,
        locked,
        elapsed,
        Outcome::Finished(Ok(extended)),
    );
    let millis = duration_millis(ttl) as nat;
    law_drift_is_about_one_percent(millis);
    assert(asks(requests@[i], Operation::Extend, lock.resource@, lock.val@, millis));
    assert(requests@[i]->Extend_0@ == extend_call(lock.resource@, lock.val@, millis));
    if live(store, now, lock.resource@) != Some(lock.val@) {
        law_a_lost_lock_is_not_extended(store, now, lock.resource@, lock.val@, millis);
    }
    lemma_number_of_decimal(millis);
}

/// Every call is accepted: none of these functions asks anything of its arguments, except that
/// the answers of a round can be counted.
pub proof fn law_every_round_is_accepted<'a, R: ToLockResource<'a>>(
    manager: &LockManager,
    name: R,
    value: &[u8],
    ttl: usize,
    function: Operation,
    lock: &Lock,
    span: Duration,
    attempt: Attempt,
    locked: &Vec<bool>,
    rejection: Rejection,
    pause: u64,
)
    ensures
        call_requires(LockManager::lock::<R>, (manager, name, span)),
        call_requires(LockManager::extend, (manager, lock, span)),
        call_requires(LockManager::exec_or_retry::<R>, (manager, name, value, ttl, function)),
        call_requires(Attempt::requests, (&attempt,)),
        locked@.len() <= u32::MAX ==> call_requires(Attempt::conclude, (attempt, locked, span)),
        call_requires(Rejection::release, (&rejection,)),
        call_requires(Rejection::retry_after, (rejection, pause)),
        call_requires(Rejection::retry, (rejection,)),
        call_requires(drift_allowance, (ttl,)),
{
}

} // verus!
