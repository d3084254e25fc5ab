//! What holds of locks as a whole: on one server, over all servers, and over the rounds of one
//! attempt.

use crate::attempt::{granted, AttemptView, Operation, RoundVerdict};
use crate::connection::{extend_call, lock_words, query_words, unlock_call};
use crate::drift::{clock_drift, law_drift_is_about_one_percent};
use crate::error::LockError;
use crate::lock::{first_answer, freed, quorum};
use crate::redlock;
use crate::server::{
    acceptable, grants, is_foreign, lemma_number_of_decimal, live, run_all, run_command,
    run_request, run_script, Arrival, Entry, Reply, ServerRequest, Store,
};

use vstd::prelude::*;

verus! {

// One server.

/// A server grants a lock exactly if the key has no value. Then the key has the value of the
/// lock for the time to live. Other keys are not touched, and nothing at all is touched if the
/// lock is not granted.
pub proof fn law_a_free_key_is_locked(
    store: Store,
    now: int,
    key: Seq<u8>,
    val: Seq<u8>,
    ttl: nat,
)
    requires
        acceptable(now, ttl as int),
    ensures
        ({
            let (after, reply) = run_command(store, now, lock_words(key, val, ttl));
            &&& reply == Reply::Okay <==> live(store, now, key) is None
            &&& reply == Reply::Okay ==> after == store.insert(
                key,
                Entry { value: val, expires_at: now + ttl },
            )
            &&& reply != Reply::Okay ==> after == store
        }),
{
    lemma_number_of_decimal(ttl);
}

/// A lock on a server ends by itself once its time to live is over.
pub proof fn law_a_lock_expires(
    store: Store,
    now: int,
    later: int,
    key: Seq<u8>,
    val: Seq<u8>,
    ttl: nat,
)
    requires
        run_command(store, now, lock_words(key, val, ttl)).1 == Reply::Okay,
    ensures
        ({
            let after = run_command(store, now, lock_words(key, val, ttl)).0;
            &&& now <= later <= now + ttl ==> live(after, later, key) == Some(val)
            &&& later > now + ttl ==> live(after, later, key) is None
        }),
{
    lemma_number_of_decimal(ttl);
}

/// The owner of a lock gives it up by its value: the server answers 1, and the key is free for
/// everyone.
pub proof fn law_the_owner_unlocks(
    store: Store,
    now: int,
    later: int,
    key: Seq<u8>,
    val: Seq<u8>,
    other: Seq<u8>,
    ttl: nat,
)
    requires
        live(store, now, key) == Some(val),
        acceptable(later, ttl as int),
    ensures
        ({
            let (after, reply) = run_script(store, now, unlock_call(key, val));
            &&& reply == Reply::Int(1)
            &&& live(after, later, key) is None
            &&& run_command(after, later, lock_words(key, other, ttl)).1 == Reply::Okay
        }),
{
    let after = run_script(store, now, unlock_call(key, val)).0;
    law_a_free_key_is_locked(after, later, key, other, ttl);
}

/// Nobody but the owner gives a lock up: with another value, and on a key without one, the
/// server answers 0 and keeps everything.
pub proof fn law_nobody_else_unlocks(store: Store, now: int, key: Seq<u8>, val: Seq<u8>)
    requires
        live(store, now, key) != Some(val),
    ensures
        run_script(store, now, unlock_call(key, val)) == (store, Reply::Int(0)),
{
}

/// A server that was asked to give a lock up has nothing left of it, and keeps every other lock:
/// so a rejected round, which ends with that request, leaves nothing of its lock behind.
pub proof fn law_a_released_server_forgets(
    store: Store,
    now: int,
    later: int,
    key: Seq<u8>,
    val: Seq<u8>,
    other_key: Seq<u8>,
)
    requires
        now <= later,
    ensures
        ({
            let after = run_script(store, now, unlock_call(key, val)).0;
            &&& live(after, later, key) != Some(val)
            &&& live(store, now, key) != Some(val) ==> live(after, later, key) == live(
                store,
                later,
                key,
            )
            &&& other_key != key ==> live(after, later, other_key) == live(store, later, other_key)
        }),
{
}

/// A rejected round that was to take a lock is undone: once the server was asked for the lock
/// and then to give it up, every key reads as if it had not been asked at all.
pub proof fn law_a_rejected_round_is_undone(
    store: Store,
    now: int,
    released_at: int,
    later: int,
    key: Seq<u8>,
    val: Seq<u8>,
    ttl: nat,
    read_key: Seq<u8>,
)
    requires
        now <= released_at <= later,
        live(store, now, key) != Some(val),
    ensures
        ({
            let locked = run_command(store, now, lock_words(key, val, ttl)).0;
            let after = run_script(locked, released_at, unlock_call(key, val)).0;
            live(after, later, read_key) == live(store, later, read_key)
        }),
{
    lemma_number_of_decimal(ttl);
}

/// To extend a lock renews its duration and adds nothing to what was left of it: it ends when
/// the new time to live, counted from the extension, is over.
pub proof fn law_extending_renews(
    store: Store,
    now: int,
    later: int,
    key: Seq<u8>,
    val: Seq<u8>,
    ttl: nat,
)
    requires
        live(store, now, key) == Some(val),
        acceptable(now, ttl as int),
    ensures
        ({
            let (after, reply) = run_script(store, now, extend_call(key, val, ttl));
            &&& reply == Reply::Int(1)
            &&& now <= later <= now + ttl ==> live(after, later, key) == Some(val)
            &&& later > now + ttl ==> live(after, later, key) is None
        }),
{
    lemma_number_of_decimal(ttl);
}

/// Only a lock that is still held can be extended: otherwise the server answers 0 and keeps
/// everything.
pub proof fn law_a_lost_lock_is_not_extended(
    store: Store,
    now: int,
    key: Seq<u8>,
    val: Seq<u8>,
    ttl: nat,
)
    requires
        live(store, now, key) != Some(val),
    ensures
        run_script(store, now, extend_call(key, val, ttl)) == (store, Reply::Int(0)),
{
}

/// To look a key up gives its value, and changes nothing.
pub proof fn law_a_query_reads(store: Store, now: int, key: Seq<u8>)
    ensures
        run_command(store, now, query_words(key)) == (
            store,
            match live(store, now, key) {
                Some(value) => Reply::Bulk(value),
                None => Reply::Nil,
            },
        ),
{
}

/// Both lock managers ask a server for the same: their requests to take a lock and to give it up
/// differ in their words, and in nothing that the server does.
pub proof fn law_both_managers_ask_for_the_same(
    store: Store,
    now: int,
    key: Seq<u8>,
    val: Seq<u8>,
    ttl: nat,
)
    ensures
        run_command(store, now, redlock::lock_words(key, val, ttl)) == run_command(
            store,
            now,
            lock_words(key, val, ttl),
        ),
        run_script(store, now, redlock::unlock_call(key, val)) == run_script(
            store,
            now,
            unlock_call(key, val),
        ),
{
}

/// A server grants a lock to a blocking lock manager exactly if the key has no value. Then the
/// key has the value of the lock for the time to live. Other keys are not touched, and nothing
/// at all is touched if the lock is not granted.
pub proof fn law_a_free_key_is_locked_by_a_blocking_manager(
    store: Store,
    now: int,
    key: Seq<u8>,
    val: Seq<u8>,
    ttl: nat,
)
    requires
        acceptable(now, ttl as int),
    ensures
        ({
            let (after, reply) = run_command(store, now, redlock::lock_words(key, val, ttl));
            &&& reply == Reply::Okay <==> live(store, now, key) is None
            &&& reply == Reply::Okay ==> after == store.insert(
                key,
                Entry { value: val, expires_at: now + ttl },
            )
            &&& reply != Reply::Okay ==> after == store
        }),
{
    law_both_managers_ask_for_the_same(store, now, key, val, ttl);
    law_a_free_key_is_locked(store, now, key, val, ttl);
}

/// A lock of a blocking lock manager ends by itself once its time to live is over.
pub proof fn law_a_blocking_lock_expires(
    store: Store,
    now: int,
    later: int,
    key: Seq<u8>,
    val: Seq<u8>,
    ttl: nat,
)
    requires
        run_command(store, now, redlock::lock_words(key, val, ttl)).1 == Reply::Okay,
    ensures
        ({
            let after = run_command(store, now, redlock::lock_words(key, val, ttl)).0;
            &&& now <= later <= now + ttl ==> live(after, later, key) == Some(val)
            &&& later > now + ttl ==> live(after, later, key) is None
        }),
{
    law_both_managers_ask_for_the_same(store, now, key, val, ttl);
    law_a_lock_expires(store, now, later, key, val, ttl);
}

/// The owner of a lock gives it up with a blocking lock manager by its value: the server answers
/// 1, and the key is free for everyone.
pub proof fn law_the_owner_of_a_blocking_lock_unlocks(
    store: Store,
    now: int,
    later: int,
    key: Seq<u8>,
    val: Seq<u8>,
    other: Seq<u8>,
    ttl: nat,
)
    requires
        live(store, now, key) == Some(val),
        acceptable(later, ttl as int),
    ensures
        ({
            let (after, reply) = run_script(store, now, redlock::unlock_call(key, val));
            &&& reply == Reply::Int(1)
            &&& live(after, later, key) is None
            &&& run_command(after, later, redlock::lock_words(key, other, ttl)).1 == Reply::Okay
        }),
{
    let after = run_script(store, now, redlock::unlock_call(key, val)).0;
    law_a_free_key_is_locked_by_a_blocking_manager(after, later, key, other, ttl);
}

/// Nobody but the owner gives a lock up with a blocking lock manager: with another value, and on
/// a key without one, the server answers 0 and keeps everything.
pub proof fn law_nobody_else_unlocks_a_blocking_lock(
    store: Store,
    now: int,
    key: Seq<u8>,
    val: Seq<u8>,
)
    requires
        live(store, now, key) != Some(val),
    ensures
        run_script(store, now, redlock::unlock_call(key, val)) == (store, Reply::Int(0)),
{
}

/// A server that was asked by a blocking lock manager to give a lock up has nothing left of it,
/// and keeps every other lock.
pub proof fn law_a_server_released_by_a_blocking_manager_forgets(
    store: Store,
    now: int,
    later: int,
    key: Seq<u8>,
    val: Seq<u8>,
    other_key: Seq<u8>,
)
    requires
        now <= later,
    ensures
        ({
            let after = run_script(store, now, redlock::unlock_call(key, val)).0;
            &&& live(after, later, key) != Some(val)
            &&& live(store, now, key) != Some(val) ==> live(after, later, key) == live(
                store,
                later,
                key,
            )
            &&& other_key != key ==> live(after, later, other_key) == live(store, later, other_key)
        }),
{
}

/// A rejected round of a blocking lock manager is undone: every key reads as if the server had
/// not been asked at all.
pub proof fn law_a_rejected_blocking_round_is_undone(
    store: Store,
    now: int,
    released_at: int,
    later: int,
    key: Seq<u8>,
    val: Seq<u8>,
    ttl: nat,
    read_key: Seq<u8>,
)
    requires
        now <= released_at <= later,
        live(store, now, key) != Some(val),
    ensures
        ({
            let locked = run_command(store, now, redlock::lock_words(key, val, ttl)).0;
            let after = run_script(locked, released_at, redlock::unlock_call(key, val)).0;
            live(after, later, read_key) == live(store, later, read_key)
        }),
{
    lemma_number_of_decimal(ttl);
}

// All servers.

proof fn lemma_disjoint_grants(a: Seq<bool>, b: Seq<bool>)
    requires
        a.len() == b.len(),
        forall|i: int| 0 <= i < a.len() ==> !(#[trigger] a[i] && #[trigger] b[i]),
    ensures
        granted(a) + granted(b) <= a.len(),
    decreases a.len(),
{
    if a.len() > 0 {
        assert forall|i: int| 0 <= i < a.len() - 1 implies !(#[trigger] a.drop_last()[i]
            && #[trigger] b.drop_last()[i]) by {
            assert(!(a[i] && b[i]));
        }
        lemma_disjoint_grants(a.drop_last(), b.drop_last());
        assert(!(a[a.len() - 1] && b[a.len() - 1]));
    }
}

/// Any two majorities of the servers share one: if two rounds over the same servers both reach
/// the quorum, there is a server that granted both.
pub proof fn law_quorums_share_a_server(a: Seq<bool>, b: Seq<bool>)
    requires
        a.len() == b.len(),
        granted(a) >= quorum(a.len()),
        granted(b) >= quorum(b.len()),
    ensures
        exists|i: int| 0 <= i < a.len() && #[trigger] a[i] && #[trigger] b[i],
{
    if forall|i: int| 0 <= i < a.len() ==> !(#[trigger] a[i] && #[trigger] b[i]) {
        lemma_disjoint_grants(a, b);
    }
}

/// What a round sends to every server.
pub open spec fn request_of(attempt: AttemptView) -> ServerRequest {
    match attempt.function {
        Operation::Lock => ServerRequest::Command(
            lock_words(attempt.resource, attempt.value, attempt.ttl),
        ),
        Operation::Extend => ServerRequest::Script(
            extend_call(attempt.resource, attempt.value, attempt.ttl),
        ),
    }
}

/// What a round of a blocking lock manager sends to every server.
pub open spec fn blocking_request_of(attempt: redlock::AttemptView) -> ServerRequest {
    ServerRequest::Command(redlock::lock_words(attempt.resource, attempt.val, attempt.ttl))
}

/// `request` asks for the lock `val` on `key`, or to prolong it, for `ttl` milliseconds.
pub open spec fn asks_for(request: ServerRequest, key: Seq<u8>, val: Seq<u8>, ttl: nat) -> bool {
    ||| request == ServerRequest::Command(lock_words(key, val, ttl))
    ||| request == ServerRequest::Command(redlock::lock_words(key, val, ttl))
    ||| request == ServerRequest::Script(extend_call(key, val, ttl))
}

/// A granted request leaves the lock behind.
proof fn lemma_granted_request_stores(
    store: Store,
    now: int,
    request: ServerRequest,
    key: Seq<u8>,
    val: Seq<u8>,
    ttl: nat,
)
    requires
        asks_for(request, key, val, ttl),
        grants(run_request(store, now, request).1),
    ensures
        run_request(store, now, request).0 == store.insert(
            key,
            Entry { value: val, expires_at: now + ttl },
        ),
{
    lemma_number_of_decimal(ttl);
}

/// While a key has a value, nobody else gets the key.
proof fn lemma_held_key_is_refused(
    store: Store,
    now: int,
    request: ServerRequest,
    key: Seq<u8>,
    val: Seq<u8>,
    other: Seq<u8>,
    ttl: nat,
)
    requires
        live(store, now, key) == Some(val),
        other != val,
        asks_for(request, key, other, ttl),
    ensures
        !grants(run_request(store, now, request).1),
{
}

/// While a key has a value, requests that are not the owner's leave it alone.
proof fn lemma_foreign_request_keeps(
    store: Store,
    now: int,
    request: ServerRequest,
    key: Seq<u8>,
    val: Seq<u8>,
)
    requires
        live(store, now, key) == Some(val),
        is_foreign(request, key, val),
    ensures
        run_request(store, now, request).0.contains_key(key),
        run_request(store, now, request).0[key] == store[key],
{
}

/// A lock that was granted is there until it expires, whatever others ask for meanwhile.
proof fn lemma_lock_stays(store: Store, key: Seq<u8>, arrivals: Seq<Arrival>, until: int)
    requires
        store.contains_key(key),
        until <= store[key].expires_at,
        forall|j: int|
            0 <= j < arrivals.len() ==> (#[trigger] arrivals[j]).at <= until && is_foreign(
                arrivals[j].request,
                key,
                store[key].value,
            ),
    ensures
        run_all(store, arrivals).contains_key(key),
        run_all(store, arrivals)[key] == store[key],
    decreases arrivals.len(),
{
    if arrivals.len() > 0 {
        let earlier = arrivals.drop_last();
        assert forall|j: int| 0 <= j < earlier.len() implies (#[trigger] earlier[j]).at <= until
            && is_foreign(earlier[j].request, key, store[key].value) by {
            assert(earlier[j] == arrivals[j]);
        }
        lemma_lock_stays(store, key, earlier, until);
        let last = arrivals[arrivals.len() - 1];
        lemma_foreign_request_keeps(
            run_all(store, earlier),
            last.at,
            last.request,
            key,
            store[key].value,
        );
    }
}

/// How a server fares from one request for a lock to a later one: it runs the first, then what
/// arrives in between, then the second.
pub struct Stretch {
    /// The keys of the server before the first request.
    pub before: Store,
    /// When the server runs the first request, on its own clock.
    pub first_at: int,
    pub between: Seq<Arrival>,
    /// When it runs the second request.
    pub second_at: int,
}

impl Stretch {
    /// The server grants `first`.
    pub open spec fn grants_first(self, first: ServerRequest) -> bool {
        grants(run_request(self.before, self.first_at, first).1)
    }

    /// The keys of the server before the second request, if the first is `first`.
    pub open spec fn store(self, first: ServerRequest) -> Store {
        run_all(run_request(self.before, self.first_at, first).0, self.between)
    }

    /// The server, having run `first`, grants `second`.
    pub open spec fn grants_second(self, first: ServerRequest, second: ServerRequest) -> bool {
        grants(run_request(self.store(first), self.second_at, second).1)
    }

    /// Nothing that arrives in between is for the lock `val` on `key`, and all of it arrives
    /// before the second request.
    pub open spec fn leaves_alone(self, key: Seq<u8>, val: Seq<u8>) -> bool {
        forall|j: int|
            0 <= j < self.between.len() ==> (#[trigger] self.between[j]).at <= self.second_at
                && is_foreign(self.between[j].request, key, val)
    }

    /// On a clock that is at most one percent fast, no more than `limit` milliseconds lie between
    /// the two requests.
    pub open spec fn spans_at_most(self, limit: int) -> bool {
        100 * (self.second_at - self.first_at) <= 101 * limit
    }
}

/// A server that granted a lock keeps it while the lock is valid.
proof fn lemma_server_keeps(
    stretch: Stretch,
    first: ServerRequest,
    key: Seq<u8>,
    val: Seq<u8>,
    ttl: nat,
)
    requires
        asks_for(first, key, val, ttl),
        stretch.grants_first(first),
        stretch.leaves_alone(key, val),
        stretch.spans_at_most(ttl - clock_drift(ttl)),
    ensures
        live(stretch.store(first), stretch.second_at, key) == Some(val),
{
    law_drift_is_about_one_percent(ttl);
    lemma_granted_request_stores(stretch.before, stretch.first_at, first, key, val, ttl);
    let after = run_request(stretch.before, stretch.first_at, first).0;
    lemma_lock_stays(after, key, stretch.between, stretch.second_at);
}

/// While a quorum holds a valid lock, nobody else reaches a quorum.
proof fn lemma_no_second_quorum(
    servers: Seq<Stretch>,
    first: ServerRequest,
    second: ServerRequest,
    key: Seq<u8>,
    val: Seq<u8>,
    other: Seq<u8>,
    ttl: nat,
    other_ttl: nat,
    locked: Seq<bool>,
    other_locked: Seq<bool>,
)
    requires
        asks_for(first, key, val, ttl),
        asks_for(second, key, other, other_ttl),
        other != val,
        locked.len() == servers.len(),
        other_locked.len() == servers.len(),
        granted(locked) >= quorum(servers.len()),
        forall|i: int|
            0 <= i < servers.len() ==> {
                &&& (#[trigger] servers[i]).leaves_alone(key, val)
                &&& servers[i].spans_at_most(ttl - clock_drift(ttl))
                &&& locked[i] ==> servers[i].grants_first(first)
                &&& other_locked[i] ==> servers[i].grants_second(first, second)
            },
    ensures
        granted(other_locked) < quorum(servers.len()),
{
    if granted(other_locked) >= quorum(servers.len()) {
        law_quorums_share_a_server(locked, other_locked);
        let i = choose|i: int|
            0 <= i < locked.len() && #[trigger] locked[i] && #[trigger] other_locked[i];
        lemma_server_keeps(servers[i], first, key, val, ttl);
        lemma_held_key_is_refused(
            servers[i].store(first),
            servers[i].second_at,
            second,
            key,
            val,
            other,
            other_ttl,
        );
    }
}

/// A lock is held by at most one owner. Take a round `holder` that acquired a lock, or prolonged
/// one, and the round `rival` of anyone else, over the same servers and for the same resource,
/// whose requests arrive while the lock is valid. Then the rival round does not acquire the lock
/// and prolongs none. Between the two rounds any number of other clients may have asked the
/// servers for anything, the clocks of the servers may be one percent fast, and each server may
/// have failed to answer either round.
pub proof fn law_a_lock_has_one_owner(
    holder: AttemptView,
    locked: Seq<bool>,
    elapsed: nat,
    rival: AttemptView,
    rival_locked: Seq<bool>,
    rival_elapsed: nat,
    servers: Seq<Stretch>,
)
    requires
        holder.verdict(locked, elapsed) is Acquired,
        rival.resource == holder.resource,
        rival.value != holder.value,
        rival.manager.servers.len() == servers.len(),
        holder.manager.servers.len() == servers.len(),
        locked.len() == servers.len(),
        rival_locked.len() == servers.len(),
        forall|i: int|
            0 <= i < servers.len() ==> {
                &&& (#[trigger] servers[i]).leaves_alone(holder.resource, holder.value)
                &&& servers[i].spans_at_most(
                    (elapsed + holder.verdict(locked, elapsed)->Acquired_0) as int,
                )
                &&& locked[i] ==> servers[i].grants_first(request_of(holder))
                &&& rival_locked[i] ==> servers[i].grants_second(
                    request_of(holder),
                    request_of(rival),
                )
            },
    ensures
        !(rival.verdict(rival_locked, rival_elapsed) is Acquired),
{
    lemma_no_second_quorum(
        servers,
        request_of(holder),
        request_of(rival),
        holder.resource,
        holder.value,
        rival.value,
        holder.ttl,
        rival.ttl,
        locked,
        rival_locked,
    );
}

/// A lock that was taken with a blocking lock manager has one owner too.
pub proof fn law_a_blocking_lock_has_one_owner(
    holder: redlock::AttemptView,
    locked: Seq<bool>,
    elapsed: nat,
    rival: redlock::AttemptView,
    rival_locked: Seq<bool>,
    rival_elapsed: nat,
    servers: Seq<Stretch>,
)
    requires
        holder.acquires(locked, elapsed),
        rival.resource == holder.resource,
        rival.val != holder.val,
        rival.manager.servers.len() == servers.len(),
        holder.manager.servers.len() == servers.len(),
        locked.len() == servers.len(),
        rival_locked.len() == servers.len(),
        forall|i: int|
            0 <= i < servers.len() ==> {
                &&& (#[trigger] servers[i]).leaves_alone(holder.resource, holder.val)
                &&& servers[i].spans_at_most(elapsed + holder.validity(elapsed))
                &&& locked[i] ==> servers[i].grants_first(blocking_request_of(holder))
                &&& rival_locked[i] ==> servers[i].grants_second(
                    blocking_request_of(holder),
                    blocking_request_of(rival),
                )
            },
    ensures
        !rival.acquires(rival_locked, rival_elapsed),
{
    lemma_no_second_quorum(
        servers,
        blocking_request_of(holder),
        blocking_request_of(rival),
        holder.resource,
        holder.val,
        rival.val,
        holder.ttl,
        rival.ttl,
        locked,
        rival_locked,
    );
}

/// A lock has one owner whichever lock managers are used: while a lock that was taken or prolonged
/// with a `LockManager` is valid, nobody else takes it with a blocking one.
pub proof fn law_a_lock_has_no_blocking_rival(
    holder: AttemptView,
    locked: Seq<bool>,
    elapsed: nat,
    rival: redlock::AttemptView,
    rival_locked: Seq<bool>,
    rival_elapsed: nat,
    servers: Seq<Stretch>,
)
    requires
        holder.verdict(locked, elapsed) is Acquired,
        rival.resource == holder.resource,
        rival.val != holder.value,
        rival.manager.servers.len() == servers.len(),
        holder.manager.servers.len() == servers.len(),
        locked.len() == servers.len(),
        rival_locked.len() == servers.len(),
        forall|i: int|
            0 <= i < servers.len() ==> {
                &&& (#[trigger] servers[i]).leaves_alone(holder.resource, holder.value)
                &&& servers[i].spans_at_most(
                    (elapsed + holder.verdict(locked, elapsed)->Acquired_0) as int,
                )
                &&& locked[i] ==> servers[i].grants_first(request_of(holder))
                &&& rival_locked[i] ==> servers[i].grants_second(
                    request_of(holder),
                    blocking_request_of(rival),
                )
            },
    ensures
        !rival.acquires(rival_locked, rival_elapsed),
{
    lemma_no_second_quorum(
        servers,
        request_of(holder),
        blocking_request_of(rival),
        holder.resource,
        holder.value,
        rival.val,
        holder.ttl,
        rival.ttl,
        locked,
        rival_locked,
    );
}

/// A lock has one owner whichever lock managers are used: while a lock that was taken with a
/// blocking lock manager is valid, nobody else takes or prolongs it with a `LockManager`.
pub proof fn law_a_blocking_lock_has_no_other_rival(
    holder: redlock::AttemptView,
    locked: Seq<bool>,
    elapsed: nat,
    rival: AttemptView,
    rival_locked: Seq<bool>,
    rival_elapsed: nat,
    servers: Seq<Stretch>,
)
    requires
        holder.acquires(locked, elapsed),
        rival.resource == holder.resource,
        rival.value != holder.val,
        rival.manager.servers.len() == servers.len(),
        holder.manager.servers.len() == servers.len(),
        locked.len() == servers.len(),
        rival_locked.len() == servers.len(),
        forall|i: int|
            0 <= i < servers.len() ==> {
                &&& (#[trigger] servers[i]).leaves_alone(holder.resource, holder.val)
                &&& servers[i].spans_at_most(elapsed + holder.validity(elapsed))
                &&& locked[i] ==> servers[i].grants_first(blocking_request_of(holder))
                &&& rival_locked[i] ==> servers[i].grants_second(
                    blocking_request_of(holder),
                    request_of(rival),
                )
            },
    ensures
        !(rival.verdict(rival_locked, rival_elapsed) is Acquired),
{
    lemma_no_second_quorum(
        servers,
        blocking_request_of(holder),
        request_of(rival),
        holder.resource,
        holder.val,
        rival.value,
        holder.ttl,
        rival.ttl,
        locked,
        rival_locked,
    );
}

/// While a lock is valid, every server that granted it has its value under its key, whatever
/// other clients ask for.
pub proof fn law_a_valid_lock_is_stored(
    holder: AttemptView,
    locked: Seq<bool>,
    elapsed: nat,
    stretch: Stretch,
)
    requires
        holder.verdict(locked, elapsed) is Acquired,
        stretch.grants_first(request_of(holder)),
        stretch.leaves_alone(holder.resource, holder.value),
        stretch.spans_at_most(
            (elapsed + holder.verdict(locked, elapsed)->Acquired_0) as int,
        ),
    ensures
        live(stretch.store(request_of(holder)), stretch.second_at, holder.resource) == Some(
            holder.value,
        ),
{
    lemma_server_keeps(stretch, request_of(holder), holder.resource, holder.value, holder.ttl);
}

proof fn lemma_granted_monotonic(a: Seq<bool>, b: Seq<bool>)
    requires
        a.len() == b.len(),
        forall|i: int| 0 <= i < a.len() && #[trigger] a[i] ==> b[i],
    ensures
        granted(a) <= granted(b),
    decreases a.len(),
{
    if a.len() > 0 {
        assert forall|i: int| 0 <= i < a.len() - 1 && #[trigger] a.drop_last()[i] implies
            b.drop_last()[i] by {
            assert(a[i]);
        }
        lemma_granted_monotonic(a.drop_last(), b.drop_last());
        assert(a[a.len() - 1] ==> b[a.len() - 1]);
    }
}

/// A lock can be prolonged while it is valid: if the servers that granted it are reached again,
/// and in time, the extension succeeds.
pub proof fn law_a_valid_lock_can_be_extended(
    holder: AttemptView,
    locked: Seq<bool>,
    elapsed: nat,
    extension: AttemptView,
    extended: Seq<bool>,
    extension_elapsed: nat,
    servers: Seq<Stretch>,
)
    requires
        holder.verdict(locked, elapsed) is Acquired,
        extension.function == Operation::Extend,
        extension.resource == holder.resource,
        extension.value == holder.value,
        !extension.expired(extension_elapsed),
        holder.manager.servers.len() == servers.len(),
        extension.manager.servers.len() == servers.len(),
        locked.len() == servers.len(),
        extended.len() == servers.len(),
        forall|i: int|
            0 <= i < servers.len() && #[trigger] locked[i] ==> {
                &&& servers[i].grants_first(request_of(holder))
                &&& servers[i].leaves_alone(holder.resource, holder.value)
                &&& servers[i].spans_at_most(
                    (elapsed + holder.verdict(locked, elapsed)->Acquired_0) as int,
                )
                &&& acceptable(servers[i].second_at, extension.ttl as int)
                &&& extended[i] == servers[i].grants_second(
                    request_of(holder),
                    request_of(extension),
                )
            },
    ensures
        extension.verdict(extended, extension_elapsed) is Acquired,
{
    lemma_number_of_decimal(extension.ttl);
    assert forall|i: int| 0 <= i < locked.len() && #[trigger] locked[i] implies extended[i] by {
        law_a_valid_lock_is_stored(holder, locked, elapsed, servers[i]);
    }
    lemma_granted_monotonic(locked, extended);
}

/// A server that runs the request of a round at the time `now` grants it: the key is free, or
/// has the value of the lock that is to be prolonged.
pub open spec fn ready(attempt: AttemptView, store: Store, now: int) -> bool {
    match attempt.function {
        Operation::Lock => live(store, now, attempt.resource) is None,
        Operation::Extend => live(store, now, attempt.resource) == Some(attempt.value),
    }
}

/// A round acquires or prolongs the lock exactly if a majority of the servers is reached and
/// ready for it and something of the time to live is left in the end.
pub proof fn law_a_ready_majority_decides(
    attempt: AttemptView,
    stores: Seq<Store>,
    times: Seq<int>,
    reached: Seq<bool>,
    locked: Seq<bool>,
    elapsed: nat,
)
    requires
        stores.len() == attempt.manager.servers.len(),
        times.len() == stores.len(),
        reached.len() == stores.len(),
        locked.len() == stores.len(),
        forall|i: int|
            0 <= i < stores.len() ==> {
                &&& acceptable(#[trigger] times[i], attempt.ttl as int)
                &&& locked[i] == (reached[i] && grants(
                    run_request(stores[i], times[i], request_of(attempt)).1,
                ))
            },
    ensures
        attempt.verdict(locked, elapsed) is Acquired <==> {
            &&& !attempt.expired(elapsed)
            &&& granted(
                Seq::new(
                    stores.len(),
                    |i: int| reached[i] && ready(attempt, stores[i], times[i]),
                ),
            ) >= quorum(stores.len())
        },
{
    lemma_number_of_decimal(attempt.ttl);
    let able = Seq::new(
        stores.len(),
        |i: int| reached[i] && ready(attempt, stores[i], times[i]),
    );
    assert forall|i: int| 0 <= i < stores.len() implies locked[i] == able[i] by {
        assert(acceptable(times[i], attempt.ttl as int));
    }
    assert(locked =~= able);
}

/// Once the owner has given a lock up on every server, anyone can take it.
pub proof fn law_an_unlocked_resource_can_be_locked(
    val: Seq<u8>,
    before: Seq<Store>,
    unlocked_at: Seq<int>,
    attempt: AttemptView,
    times: Seq<int>,
    locked: Seq<bool>,
    elapsed: nat,
)
    requires
        attempt.function == Operation::Lock,
        !attempt.expired(elapsed),
        before.len() == attempt.manager.servers.len(),
        before.len() > 0,
        unlocked_at.len() == before.len(),
        times.len() == before.len(),
        locked.len() == before.len(),
        forall|i: int|
            0 <= i < before.len() ==> {
                &&& acceptable(#[trigger] times[i], attempt.ttl as int)
                &&& unlocked_at[i] <= times[i]
                &&& (live(before[i], unlocked_at[i], attempt.resource) matches Some(held) ==> held
                    == val)
                &&& locked[i] == grants(
                    run_request(
                        run_script(
                            before[i],
                            unlocked_at[i],
                            unlock_call(attempt.resource, val),
                        ).0,
                        times[i],
                        request_of(attempt),
                    ).1,
                )
            },
    ensures
        attempt.verdict(locked, elapsed) is Acquired,
{
    lemma_number_of_decimal(attempt.ttl);
    assert forall|i: int| 0 <= i < locked.len() implies #[trigger] locked[i] by {
        assert(acceptable(times[i], attempt.ttl as int));
    }
    lemma_all_granted(locked);
}

/// A round of a blocking lock manager acquires the lock exactly if a majority of the servers is
/// reached and has no value under the key and something of the time to live is left in the end.
pub proof fn law_a_free_majority_decides(
    attempt: redlock::AttemptView,
    stores: Seq<Store>,
    times: Seq<int>,
    reached: Seq<bool>,
    locked: Seq<bool>,
    elapsed: nat,
)
    requires
        stores.len() == attempt.manager.servers.len(),
        times.len() == stores.len(),
        reached.len() == stores.len(),
        locked.len() == stores.len(),
        forall|i: int|
            0 <= i < stores.len() ==> {
                &&& acceptable(#[trigger] times[i], attempt.ttl as int)
                &&& locked[i] == (reached[i] && grants(
                    run_request(stores[i], times[i], blocking_request_of(attempt)).1,
                ))
            },
    ensures
        attempt.acquires(locked, elapsed) <==> {
            &&& attempt.validity(elapsed) > 0
            &&& granted(
                Seq::new(
                    stores.len(),
                    |i: int| reached[i] && live(stores[i], times[i], attempt.resource) is None,
                ),
            ) >= quorum(stores.len())
        },
{
    lemma_number_of_decimal(attempt.ttl);
    let able = Seq::new(
        stores.len(),
        |i: int| reached[i] && live(stores[i], times[i], attempt.resource) is None,
    );
    assert forall|i: int| 0 <= i < stores.len() implies locked[i] == able[i] by {
        assert(acceptable(times[i], attempt.ttl as int));
    }
    assert(locked =~= able);
}

/// Once the owner has given a lock up on every server with a blocking lock manager, anyone can
/// take it with one.
pub proof fn law_an_unlocked_resource_can_be_locked_by_a_blocking_manager(
    val: Seq<u8>,
    before: Seq<Store>,
    unlocked_at: Seq<int>,
    attempt: redlock::AttemptView,
    times: Seq<int>,
    locked: Seq<bool>,
    elapsed: nat,
)
    requires
        attempt.validity(elapsed) > 0,
        before.len() == attempt.manager.servers.len(),
        before.len() > 0,
        unlocked_at.len() == before.len(),
        times.len() == before.len(),
        locked.len() == before.len(),
        forall|i: int|
            0 <= i < before.len() ==> {
                &&& acceptable(#[trigger] times[i], attempt.ttl as int)
                &&& unlocked_at[i] <= times[i]
                &&& (live(before[i], unlocked_at[i], attempt.resource) matches Some(held) ==> held
                    == val)
                &&& locked[i] == grants(
                    run_request(
                        run_script(
                            before[i],
                            unlocked_at[i],
                            redlock::unlock_call(attempt.resource, val),
                        ).0,
                        times[i],
                        blocking_request_of(attempt),
                    ).1,
                )
            },
    ensures
        attempt.acquires(locked, elapsed),
{
    lemma_number_of_decimal(attempt.ttl);
    assert forall|i: int| 0 <= i < locked.len() implies #[trigger] locked[i] by {
        assert(acceptable(times[i], attempt.ttl as int));
    }
    lemma_all_granted(locked);
}

/// While a lock of a blocking lock manager is valid, every server that granted it has its value
/// under its key, whatever other clients ask for.
pub proof fn law_a_valid_blocking_lock_is_stored(
    holder: redlock::AttemptView,
    locked: Seq<bool>,
    elapsed: nat,
    stretch: Stretch,
)
    requires
        holder.acquires(locked, elapsed),
        stretch.grants_first(blocking_request_of(holder)),
        stretch.leaves_alone(holder.resource, holder.val),
        stretch.spans_at_most(elapsed + holder.validity(elapsed)),
    ensures
        live(stretch.store(blocking_request_of(holder)), stretch.second_at, holder.resource)
            == Some(holder.val),
{
    lemma_server_keeps(
        stretch,
        blocking_request_of(holder),
        holder.resource,
        holder.val,
        holder.ttl,
    );
}

proof fn lemma_all_granted(locked: Seq<bool>)
    requires
        forall|i: int| 0 <= i < locked.len() ==> #[trigger] locked[i],
    ensures
        granted(locked) == locked.len(),
    decreases locked.len(),
{
    if locked.len() > 0 {
        lemma_all_granted(locked.drop_last());
    }
}

/// Without servers there are no locks.
pub proof fn law_no_servers_no_lock(attempt: AttemptView, elapsed: nat)
    requires
        attempt.manager.servers.len() == 0,
    ensures
        !(attempt.verdict(Seq::empty(), elapsed) is Acquired),
{
}

/// Without servers a blocking lock manager has no locks either.
pub proof fn law_no_servers_no_blocking_lock(attempt: redlock::AttemptView, elapsed: nat)
    requires
        attempt.manager.servers.len() == 0,
    ensures
        !attempt.acquires(Seq::empty(), elapsed),
{
}

/// The time that an acquired lock is valid for is positive and only slightly smaller than the
/// requested time to live: two milliseconds, about one percent and the time of the round are
/// taken off.
pub proof fn law_validity_is_slightly_smaller(
    attempt: AttemptView,
    locked: Seq<bool>,
    elapsed: nat,
    validity: nat,
)
    requires
        attempt.verdict(locked, elapsed) == RoundVerdict::Acquired(validity),
    ensures
        0 < validity,
        validity + elapsed + 2 <= attempt.ttl,
        99 * (attempt.ttl - validity - elapsed - 2) <= attempt.ttl,
{
    law_drift_is_about_one_percent(attempt.ttl);
}

/// The time that a lock of a blocking lock manager is valid for is positive and only slightly
/// smaller than the requested time to live.
pub proof fn law_blocking_validity_is_slightly_smaller(
    attempt: redlock::AttemptView,
    locked: Seq<bool>,
    elapsed: nat,
)
    requires
        attempt.acquires(locked, elapsed),
    ensures
        0 < attempt.validity(elapsed),
        attempt.validity(elapsed) + elapsed + 2 <= attempt.ttl,
        99 * (attempt.ttl - attempt.validity(elapsed) - elapsed - 2) <= attempt.ttl,
{
    law_drift_is_about_one_percent(attempt.ttl);
}

/// A round of a blocking lock manager with a time to live of up to two milliseconds always fails.
pub proof fn law_a_tiny_ttl_acquires_no_blocking_lock(
    attempt: redlock::AttemptView,
    locked: Seq<bool>,
    elapsed: nat,
)
    requires
        attempt.ttl <= 2,
    ensures
        !attempt.acquires(locked, elapsed),
{
}

/// A time to live of up to two milliseconds is always exceeded.
pub proof fn law_a_tiny_ttl_is_exceeded(attempt: AttemptView, locked: Seq<bool>, elapsed: nat)
    requires
        attempt.ttl <= 2,
    ensures
        attempt.verdict(locked, elapsed) == RoundVerdict::Expired,
{
}

/// Whether a lock is freed follows from what the server stores: it is not while its key has its
/// value, and otherwise the answer says whether the key has another value or none.
pub proof fn law_is_freed_tells_what_is_stored(
    store: Store,
    now: int,
    key: Seq<u8>,
    val: Seq<u8>,
    found: Option<Vec<u8>>,
)
    requires
        run_command(store, now, query_words(key)).1 == match found {
            Some(value) => Reply::Bulk(value@),
            None => Reply::Nil,
        },
    ensures
        freed(val, Ok(found)) == match live(store, now, key) {
            Some(value) => if value == val {
                Ok(false)
            } else {
                Err(LockError::RedisKeyMismatch)
            },
            None => Err(LockError::RedisKeyNotFound),
        },
{
}

/// Looking a key up passes over the servers that have not answered: the first answer counts.
pub proof fn law_the_first_answer_counts(
    results: Seq<Result<Option<Vec<u8>>, LockError>>,
    k: int,
)
    requires
        0 <= k < results.len(),
        forall|j: int| 0 <= j < k ==> (#[trigger] results[j]) is Err,
        results[k] is Ok,
    ensures
        first_answer(results) == Some(results[k]->Ok_0),
    decreases k,
{
    if k > 0 {
        assert(results[0] is Err);
        assert(results.drop_first()[k - 1] == results[k]);
        law_the_first_answer_counts(results.drop_first(), k - 1);
    }
}

/// There is no answer only if no server has answered.
pub proof fn law_no_server_no_answer(results: Seq<Result<Option<Vec<u8>>, LockError>>)
    ensures
        first_answer(results) is None <==> forall|j: int|
            0 <= j < results.len() ==> (#[trigger] results[j]) is Err,
    decreases results.len(),
{
    if results.len() > 0 {
        let later = results.drop_first();
        law_no_server_no_answer(later);
        assert(results[0] == results.first());
        if forall|j: int| 0 <= j < results.len() ==> (#[trigger] results[j]) is Err {
            assert forall|j: int| 0 <= j < later.len() implies (#[trigger] later[j]) is Err by {
                assert(later[j] == results[j + 1]);
            }
        } else if results[0] is Err {
            let j = choose|j: int| 0 <= j < results.len() && (#[trigger] results[j]) is Ok;
            assert(later[j - 1] == results[j]);
        }
    }
}

// The rounds of one attempt.

/// How one round went.
pub struct Report {
    pub locked: Seq<bool>,
    /// In milliseconds.
    pub elapsed: nat,
}

/// What an attempt comes to when its rounds go as reported: the time that the lock is valid for
/// or the reason why there is none. `None` if it is still undecided after these rounds.
pub open spec fn course(attempt: AttemptView, reports: Seq<Report>) -> Option<
    Result<nat, LockError>,
>
    decreases reports.len(),
{
    if reports.len() == 0 {
        None
    } else {
        match attempt.verdict(reports.first().locked, reports.first().elapsed) {
            RoundVerdict::Acquired(validity) => Some(Ok(validity)),
            RoundVerdict::Expired => Some(Err(LockError::TtlExceeded)),
            RoundVerdict::Rejected => if attempt.tries_again() {
                course(attempt.next_try(), reports.drop_first())
            } else {
                Some(Err(attempt.final_error()))
            },
        }
    }
}

/// How many rounds an attempt takes at most, this one included.
pub open spec fn rounds(attempt: AttemptView) -> nat {
    if attempt.tries_again() {
        (attempt.manager.retry_count - attempt.current_try + 1) as nat
    } else {
        1
    }
}

/// The first `n` rounds were all rejected.
pub open spec fn all_rejected(attempt: AttemptView, reports: Seq<Report>, n: nat) -> bool {
    forall|k: int|
        0 <= k < n ==> attempt.verdict((#[trigger] reports[k]).locked, reports[k].elapsed)
            == RoundVerdict::Rejected
}

proof fn lemma_later_rounds(attempt: AttemptView, reports: Seq<Report>, n: nat)
    requires
        0 < n <= reports.len(),
        all_rejected(attempt, reports, n),
    ensures
        all_rejected(attempt.next_try(), reports.drop_first(), (n - 1) as nat),
{
    let later = reports.drop_first();
    assert forall|k: int| 0 <= k < n - 1 implies attempt.next_try().verdict(
        (#[trigger] later[k]).locked,
        later[k].elapsed,
    ) == RoundVerdict::Rejected by {
        assert(later[k] == reports[k + 1]);
    }
}

/// The first round that is not rejected decides: if it reached the quorum in time the lock is
/// held, and if it took too long the time to live is exceeded, whatever rounds would be left.
pub proof fn law_the_first_decided_round_counts(
    attempt: AttemptView,
    reports: Seq<Report>,
    k: nat,
)
    requires
        k < rounds(attempt),
        k < reports.len(),
        all_rejected(attempt, reports, k),
    ensures
        match attempt.verdict(reports[k as int].locked, reports[k as int].elapsed) {
            RoundVerdict::Acquired(validity) => course(attempt, reports) == Some(
                Ok::<nat, LockError>(validity),
            ),
            RoundVerdict::Expired => course(attempt, reports) == Some(
                Err::<nat, LockError>(LockError::TtlExceeded),
            ),
            RoundVerdict::Rejected => true,
        },
    decreases k,
{
    if k > 0 {
        lemma_later_rounds(attempt, reports, k);
        assert(reports[0] == reports.first());
        assert(reports.drop_first()[k - 1] == reports[k as int]);
        law_the_first_decided_round_counts(
            attempt.next_try(),
            reports.drop_first(),
            (k - 1) as nat,
        );
    }
}

/// A lock is reported as unavailable only after every round was rejected. A retry delay that
/// cannot be counted in milliseconds is reported as soon as it matters, after the first round.
pub proof fn law_rejected_rounds_end_in_an_error(attempt: AttemptView, reports: Seq<Report>)
    requires
        rounds(attempt) <= reports.len(),
        all_rejected(attempt, reports, rounds(attempt)),
    ensures
        course(attempt, reports) == Some(
            Err::<nat, LockError>(
                if attempt.has_tries_left() && attempt.longest_pause() > u64::MAX {
                    LockError::TtlTooLarge
                } else {
                    LockError::Unavailable
                },
            ),
        ),
    decreases rounds(attempt),
{
    assert(reports[0] == reports.first());
    if attempt.tries_again() {
        lemma_later_rounds(attempt, reports, rounds(attempt));
        law_rejected_rounds_end_in_an_error(attempt.next_try(), reports.drop_first());
    }
}

/// An attempt ends: it is decided after as many rounds as the manager's retry count, or after
/// one if that is zero.
pub proof fn law_an_attempt_ends(attempt: AttemptView, reports: Seq<Report>)
    requires
        attempt.current_try == 1,
        reports.len() >= attempt.manager.retry_count,
        reports.len() >= 1,
    ensures
        course(attempt, reports) is Some,
{
    lemma_attempt_ends(attempt, reports);
}

proof fn lemma_attempt_ends(attempt: AttemptView, reports: Seq<Report>)
    requires
        reports.len() >= rounds(attempt),
    ensures
        course(attempt, reports) is Some,
    decreases reports.len(),
{
    if attempt.tries_again() {
        lemma_attempt_ends(attempt.next_try(), reports.drop_first());
    }
}

/// What an attempt of a blocking lock manager comes to when its rounds go as reported: the time
/// that the lock is valid for, or nothing. `None` if it is still undecided after these rounds.
pub open spec fn blocking_course(attempt: redlock::AttemptView, reports: Seq<Report>) -> Option<
    Option<int>,
>
    decreases reports.len(),
{
    if reports.len() == 0 {
        None
    } else if attempt.acquires(reports.first().locked, reports.first().elapsed) {
        Some(Some(attempt.validity(reports.first().elapsed)))
    } else if attempt.tries_left > 1 {
        blocking_course(attempt.next_try(), reports.drop_first())
    } else {
        Some(None)
    }
}

/// With a blocking lock manager, too, the first round that acquires the lock counts, and the
/// lock is given up only after every round has failed.
pub proof fn law_a_blocking_attempt_ends(
    attempt: redlock::AttemptView,
    reports: Seq<Report>,
    k: nat,
)
    requires
        0 < attempt.tries_left <= reports.len(),
        k <= attempt.tries_left,
        forall|j: int|
            0 <= j < k ==> !attempt.acquires((#[trigger] reports[j]).locked, reports[j].elapsed),
        k < attempt.tries_left ==> attempt.acquires(
            reports[k as int].locked,
            reports[k as int].elapsed,
        ),
    ensures
        blocking_course(attempt, reports) == (if k < attempt.tries_left {
            Some(Some(attempt.validity(reports[k as int].elapsed)))
        } else {
            Some(None)
        }),
    decreases k,
{
    assert(reports[0] == reports.first());
    if k > 0 && attempt.tries_left > 1 {
        let later = reports.drop_first();
        let next = attempt.next_try();
        assert forall|j: int| 0 <= j < k - 1 implies !next.acquires(
            (#[trigger] later[j]).locked,
            later[j].elapsed,
        ) by {
            assert(later[j] == reports[j + 1]);
        }
        assert(k < attempt.tries_left ==> later[k - 1] == reports[k as int]);
        law_a_blocking_attempt_ends(next, later, (k - 1) as nat);
    }
}

/// A blocking lock manager gives up on a time to live of up to two milliseconds like on any other
/// failure: after all its rounds there is no lock.
pub proof fn law_a_tiny_ttl_ends_without_a_blocking_lock(
    attempt: redlock::AttemptView,
    reports: Seq<Report>,
)
    requires
        attempt.ttl <= 2,
        0 < attempt.tries_left <= reports.len(),
    ensures
        blocking_course(attempt, reports) == Some(None::<int>),
{
    law_a_blocking_attempt_ends(attempt, reports, attempt.tries_left);
}

} // verus!
