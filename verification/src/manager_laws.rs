//! What holds of the other calls of a lock manager: how it is made, how locks are given up and
//! looked up, and how a lock is held while a routine runs.

use std::time::Duration;

use crate::attempt::Attempt;
use crate::backend::{cmd_words, opened_client, opened_cluster};
use crate::clock::{duration_millis, millis_span};
use crate::connection::{RedisClient, RestorableConnection, ScriptRequest, UNLOCK_SCRIPT};
use crate::error::LockError;
use crate::laws::{law_no_server_no_answer, law_the_first_answer_counts};
use crate::lock::{Lock, LockGuard, LockManager, LockManagerInner, Using};
use crate::lock_laws::serves;
use crate::uri::{uris_of, RedisUri};

use vstd::prelude::*;
use vstd::utf8::encode_utf8;

verus! {

// How a manager is made.

/// The servers that a manager shows are those that it has.
pub proof fn law_a_manager_shows_its_servers(
    manager: &LockManager,
    servers: Seq<RestorableConnection>,
)
    requires
        serves(manager, servers),
    ensures
        servers == manager@.servers,
{
}

/// A manager of clients has one server for each client, in their order, and tries three times
/// with pauses of up to 200 milliseconds.
pub proof fn law_a_manager_has_a_server_for_each_client(
    clients: Vec<redis::Client>,
    manager: LockManager,
)
    requires
        call_ensures(LockManager::from_clients, (clients,), manager),
    ensures
        manager@.servers.len() == clients@.len(),
        forall|i: int|
            0 <= i < clients@.len() ==> (#[trigger] manager@.servers[i]).client
                == RedisClient::Standalone(clients@[i]),
        manager@.retry_count == 3,
        manager@.retry_delay == millis_span(200),
        duration_millis(manager@.retry_delay) == 200,
{
}

/// A manager of a cluster has one server, however many nodes the cluster has, and tries three
/// times with pauses of up to 200 milliseconds.
pub proof fn law_a_cluster_is_one_server(
    client: redis::cluster::ClusterClient,
    manager: LockManager,
)
    requires
        call_ensures(LockManager::from_cluster_client, (client,), manager),
    ensures
        manager@.servers.len() == 1,
        manager@.servers[0].client == RedisClient::Cluster(client),
        manager@.retry_count == 3,
        manager@.retry_delay == millis_span(200),
        duration_millis(manager@.retry_delay) == 200,
{
}

/// A connection string is read as it stands.
pub proof fn law_a_connection_string_is_read_as_it_stands(
    text: String,
    read: &str,
    slice: &str,
    read_slice: &str,
)
    requires
        call_ensures(<String as RedisUri>::as_uri, (&text,), read),
        call_ensures(<&str as RedisUri>::as_uri, (&slice,), read_slice),
    ensures
        read@ == text@,
        read_slice@ == slice@,
{
}

/// The servers of a manager are the clients that the connection strings name, one for each, in
/// their order.
pub open spec fn named_by(servers: Seq<RestorableConnection>, uris: Seq<Seq<char>>) -> bool {
    &&& servers.len() == uris.len()
    &&& forall|i: int|
        0 <= i < uris.len() ==> match (#[trigger] servers[i]).client {
            RedisClient::Standalone(client) => opened_client(uris[i]) == Ok::<
                redis::Client,
                redis::RedisError,
            >(client),
            RedisClient::Cluster(_) => false,
        }
}

proof fn lemma_texts_of_strings(uris: Seq<String>)
    ensures
        uris_of(uris) == uris.map_values(|uri: String| uri@),
{
    assert(uris_of(uris) =~= uris.map_values(|uri: String| uri@));
}

proof fn lemma_texts_of_slices(uris: Seq<&str>)
    ensures
        uris_of(uris) == uris.map_values(|uri: &str| uri@),
{
    assert(uris_of(uris) =~= uris.map_values(|uri: &str| uri@));
}

/// A manager of connection strings, owned or borrowed, has one server for each, in their order,
/// and tries three times with pauses of up to 200 milliseconds.
pub proof fn law_a_manager_has_a_server_for_each_string(
    uris: Vec<String>,
    manager: LockManager,
    slices: Vec<&str>,
    slices_manager: LockManager,
)
    requires
        forall|i: int| 0 <= i < uris@.len() ==> opened_client((#[trigger] uris@[i])@) is Ok,
        call_ensures(LockManager::new::<String>, (uris,), manager),
        forall|i: int| 0 <= i < slices@.len() ==> opened_client((#[trigger] slices@[i])@) is Ok,
        call_ensures(LockManager::new::<&str>, (slices,), slices_manager),
    ensures
        named_by(manager@.servers, uris@.map_values(|uri: String| uri@)),
        manager@.retry_count == 3,
        manager@.retry_delay == millis_span(200),
        named_by(slices_manager@.servers, slices@.map_values(|uri: &str| uri@)),
        slices_manager@.retry_count == 3,
        slices_manager@.retry_delay == millis_span(200),
{
    lemma_texts_of_strings(uris@);
    lemma_texts_of_slices(slices@);
    assert forall|i: int| 0 <= i < uris@.len() implies match (
    #[trigger] manager@.servers[i]).client {
        RedisClient::Standalone(client) => opened_client(uris@[i]@) == Ok::<
            redis::Client,
            redis::RedisError,
        >(client),
        RedisClient::Cluster(_) => false,
    } by {
        assert(opened_client(uris@[i]@) is Ok);
    }
    assert forall|i: int| 0 <= i < slices@.len() implies match (
    #[trigger] slices_manager@.servers[i]).client {
        RedisClient::Standalone(client) => opened_client(slices@[i]@) == Ok::<
            redis::Client,
            redis::RedisError,
        >(client),
        RedisClient::Cluster(_) => false,
    } by {
        assert(opened_client(slices@[i]@) is Ok);
    }
}

/// Opening connection strings succeeds exactly if every one of them is a connection string.
/// Then the manager has one server for each, in their order; otherwise the reason is that of the
/// first string that is none.
pub proof fn law_opening_needs_connection_strings(
    uris: Vec<String>,
    result: Result<LockManager, LockError>,
)
    requires
        call_ensures(LockManager::open::<String>, (uris,), result),
    ensures
        result is Ok <==> forall|i: int|
            0 <= i < uris@.len() ==> opened_client((#[trigger] uris@[i])@) is Ok,
        result matches Ok(manager) ==> {
            &&& named_by(manager@.servers, uris@.map_values(|uri: String| uri@))
            &&& manager@.retry_count == 3
            &&& manager@.retry_delay == millis_span(200)
        },
        result matches Err(error) ==> exists|i: int|
            {
                &&& 0 <= i < uris@.len()
                &&& error matches LockError::Redis(cause) && opened_client(
                    (#[trigger] uris@[i])@,
                ) == Err::<redis::Client, redis::RedisError>(cause)
                &&& forall|j: int| 0 <= j < i ==> opened_client((#[trigger] uris@[j])@) is Ok
            },
{
    lemma_texts_of_strings(uris@);
    let texts = uris@.map_values(|uri: String| uri@);
    match result {
        Ok(manager) => {
            assert forall|i: int| 0 <= i < uris@.len() implies opened_client(
                (#[trigger] uris@[i])@,
            ) is Ok by {
                assert(texts[i] == uris@[i]@);
            }
            assert forall|i: int| 0 <= i < uris@.len() implies match (
            #[trigger] manager@.servers[i]).client {
                RedisClient::Standalone(client) => opened_client(texts[i]) == Ok::<
                    redis::Client,
                    redis::RedisError,
                >(client),
                RedisClient::Cluster(_) => false,
            } by {
                assert(opened_client(uris@[i]@) is Ok);
            }
        },
        Err(error) => {
            let cause = error->Redis_0;
            let i = choose|i: int|
                0 <= i < texts.len() && opened_client(#[trigger] texts[i]) == Err::<
                    redis::Client,
                    redis::RedisError,
                >(cause) && crate::uri::all_open(texts.take(i));
            assert(texts[i] == uris@[i]@);
            assert forall|j: int| 0 <= j < i implies opened_client((#[trigger] uris@[j])@) is Ok by {
                assert(texts.take(i)[j] == uris@[j]@);
            }
        },
    }
}

/// A manager of the seed nodes of a cluster has the cluster as its one server, or is refused for
/// the reason that the cluster client gives.
pub proof fn law_seed_nodes_name_one_cluster(
    uris: Vec<String>,
    result: Result<LockManager, redis::RedisError>,
)
    requires
        call_ensures(LockManager::new_cluster::<String>, (uris,), result),
    ensures
        match opened_cluster(uris@.map_values(|uri: String| uri@)) {
            Ok(client) => result matches Ok(manager) && {
                &&& manager@.servers.len() == 1
                &&& manager@.servers[0].client == RedisClient::Cluster(client)
                &&& manager@.retry_count == 3
                &&& manager@.retry_delay == millis_span(200)
            },
            Err(error) => result matches Err(reason) && reason == error,
        },
{
    lemma_texts_of_strings(uris@);
}

/// Setting the retries sets the count and the delay as given, and changes no server.
pub proof fn law_retries_are_set_as_given(manager: &mut LockManager, count: u32, delay: Duration)
    requires
        call_ensures(LockManager::set_retry, (manager, count, delay), ()),
    ensures
        final(manager)@.retry_count == count,
        final(manager)@.retry_delay == delay,
        final(manager)@.servers == old(manager)@.servers,
{
}

/// A copy of a manager has the same servers and retries.
pub proof fn law_a_copy_of_a_manager_is_the_same(manager: &LockManager, copy: LockManager)
    requires
        call_ensures(<LockManager as Clone>::clone, (manager,), copy),
    ensures
        copy@.servers == manager@.servers,
        copy@.retry_count == manager@.retry_count,
        copy@.retry_delay == manager@.retry_delay,
{
}

/// The value of a lock has 20 bytes, and there always is one.
pub proof fn law_a_lock_id_has_twenty_bytes(
    manager: &LockManager,
    id: Result<Vec<u8>, std::io::Error>,
)
    requires
        call_ensures(LockManager::get_unique_lock_id, (manager,), id),
    ensures
        id is Ok,
        id->Ok_0@.len() == 20,
{
}

// How locks are given up and looked up.

/// `requests` ask one server each, in their order, to give the lock `val` on `key` up.
pub open spec fn all_release(
    requests: Seq<ScriptRequest>,
    servers: nat,
    key: Seq<u8>,
    val: Seq<u8>,
) -> bool {
    &&& requests.len() == servers
    &&& forall|i: int|
        0 <= i < servers ==> {
            &&& (#[trigger] requests[i])@.code == UNLOCK_SCRIPT@
            &&& requests[i]@.keys == seq![key]
            &&& requests[i]@.args == seq![val]
        }
}

/// Unlocking asks every server of the manager to give up this lock, by its key and its value. A
/// guard asks the servers of its lock's manager for the same.
pub proof fn law_unlocking_asks_every_server(
    manager: &LockManager,
    servers: Seq<RestorableConnection>,
    lock: &Lock,
    requests: Vec<ScriptRequest>,
    guard: &LockGuard,
    guard_servers: Seq<RestorableConnection>,
    guard_requests: Vec<ScriptRequest>,
)
    requires
        serves(manager, servers),
        call_ensures(LockManager::unlock, (manager, lock), requests),
        serves(&guard.lock.lock_manager, guard_servers),
        call_ensures(LockGuard::release, (guard,), guard_requests),
    ensures
        requests@.len() == servers.len(),
        forall|i: int|
            0 <= i < requests@.len() ==> {
                &&& (#[trigger] requests@[i])@.code == UNLOCK_SCRIPT@
                &&& requests@[i]@.keys == seq![lock.resource@]
                &&& requests@[i]@.args == seq![lock.val@]
            },
        all_release(
            guard_requests@,
            guard_servers.len(),
            guard.lock.resource@,
            guard.lock.val@,
        ),
{
}

/// Looking a key up asks every server of the manager for the value of the whole key.
pub proof fn law_a_lookup_asks_every_server(
    manager: &LockManager,
    servers: Seq<RestorableConnection>,
    key: &[u8],
    commands: Vec<redis::Cmd>,
)
    requires
        serves(manager, servers),
        call_ensures(LockManager::query, (manager, key), commands),
    ensures
        commands@.len() == servers.len(),
        forall|i: int|
            0 <= i < servers.len() ==> cmd_words(#[trigger] commands@[i]) == seq![
                encode_utf8("GET"@),
                key@,
            ],
{
}

/// Looking a key up gives the first answer, passing over the servers that have not answered, and
/// fails exactly if none has.
pub proof fn law_a_lookup_gives_the_first_answer(
    manager: &LockManager,
    results: Vec<Result<Option<Vec<u8>>, LockError>>,
    value: Result<Option<Vec<u8>>, LockError>,
    k: int,
)
    requires
        call_ensures(LockManager::query_redis_for_key_value, (manager, results), value),
    ensures
        0 <= k < results@.len() && results@[k] is Ok && (forall|j: int|
            0 <= j < k ==> (#[trigger] results@[j]) is Err) ==> value == Ok::<
            Option<Vec<u8>>,
            LockError,
        >(results@[k]->Ok_0),
        (forall|j: int| 0 <= j < results@.len() ==> (#[trigger] results@[j]) is Err) ==> value
            == Err::<Option<Vec<u8>>, LockError>(LockError::RedisConnectionFailed),
        value is Err <==> forall|j: int|
            0 <= j < results@.len() ==> (#[trigger] results@[j]) is Err,
{
    law_no_server_no_answer(results@);
    if 0 <= k < results@.len() && results@[k] is Ok && (forall|j: int|
        0 <= j < k ==> (#[trigger] results@[j]) is Err) {
        law_the_first_answer_counts(results@, k);
    }
}

/// A lock is reported as held exactly if its own value was found under its key. Another value and
/// no value are reported as such, and a lookup that failed as it failed.
pub proof fn law_a_lock_is_held_while_its_value_is_found(
    manager: &LockManager,
    lock: &Lock,
    found: Result<Option<Vec<u8>>, LockError>,
    freed: Result<bool, LockError>,
)
    requires
        call_ensures(LockManager::is_freed, (manager, lock, found), freed),
    ensures
        freed == Ok::<bool, LockError>(false) <==> (found matches Ok(Some(value)) && value@
            == lock.val@),
        freed != Ok::<bool, LockError>(true),
        found matches Ok(Some(value)) && value@ != lock.val@ ==> freed == Err::<bool, LockError>(
            LockError::RedisKeyMismatch,
        ),
        found == Ok::<Option<Vec<u8>>, LockError>(None) ==> freed == Err::<bool, LockError>(
            LockError::RedisKeyNotFound,
        ),
        found matches Err(error) ==> freed == Err::<bool, LockError>(error),
{
}

/// Acquiring goes on exactly until there is a lock, which is handed out as it is, or a time to
/// live turns out to be too large.
pub proof fn law_acquiring_ends_with_a_lock(
    manager: &LockManager,
    result: Result<Lock, LockError>,
    done: Option<Result<Lock, LockError>>,
    guarded: Option<Result<LockGuard, LockError>>,
)
    requires
        call_ensures(LockManager::acquire_no_guard, (manager, result), done),
        call_ensures(LockManager::acquire, (manager, result), guarded),
    ensures
        result matches Ok(lock) ==> {
            &&& done == Some(Ok::<Lock, LockError>(lock))
            &&& guarded matches Some(Ok(guard)) && guard.lock == lock
        },
        result matches Err(error) ==> {
            &&& error is TtlTooLarge ==> done == Some(Err::<Lock, LockError>(error)) && guarded
                == Some(Err::<LockGuard, LockError>(error))
            &&& !(error is TtlTooLarge) ==> done is None && guarded is None
        },
{
}

// How a lock is held while a routine runs.

/// A lock in use is held as it was acquired: the routine may run until half a second before the
/// end of its validity, then this very lock is prolonged for the full time to live, and in the
/// end every server is asked to give it up.
pub proof fn law_a_lock_in_use_is_held_as_acquired(
    manager: &LockManager,
    servers: Seq<RestorableConnection>,
    lock: Lock,
    ttl: Duration,
    using: Using,
    wait: Duration,
    prolonged: Result<Attempt, LockError>,
    requests: Vec<ScriptRequest>,
)
    requires
        serves(manager, servers),
        call_ensures(LockManager::using, (manager, Ok(lock), ttl), Ok(using)),
        call_ensures(Using::threshold, (&using,), wait),
        call_ensures(Using::timed_out, (&using,), prolonged),
        call_ensures(Using::finished, (&using,), requests),
    ensures
        duration_millis(wait) + 500 == lock.validity_time,
        wait == millis_span((lock.validity_time - 500) as u64),
        prolonged is Ok <==> duration_millis(ttl) <= usize::MAX,
        prolonged is Err ==> prolonged->Err_0 == LockError::TtlTooLarge,
        prolonged matches Ok(attempt) ==> {
            &&& attempt@.manager == manager@
            &&& attempt@.resource == lock.resource@
            &&& attempt@.value == lock.val@
            &&& attempt@.ttl == duration_millis(ttl)
            &&& attempt@.function is Extend
            &&& attempt@.current_try == 1
        },
        all_release(requests@, servers.len(), lock.resource@, lock.val@),
{
}

/// A lock in use goes on with the prolonged lock in place of the old one, for the same time to
/// live and on the same servers.
pub proof fn law_a_lock_in_use_goes_on_prolonged(
    manager: &LockManager,
    servers: Seq<RestorableConnection>,
    lock: Lock,
    ttl: Duration,
    using: Using,
    extended: Lock,
    next: Using,
    wait: Duration,
    prolonged: Result<Attempt, LockError>,
    requests: Vec<ScriptRequest>,
)
    requires
        serves(manager, servers),
        call_ensures(LockManager::using, (manager, Ok(lock), ttl), Ok(using)),
        call_ensures(Using::extended, (using, Ok(extended)), Ok(next)),
        call_ensures(Using::threshold, (&next,), wait),
        call_ensures(Using::timed_out, (&next,), prolonged),
        call_ensures(Using::finished, (&next,), requests),
    ensures
        duration_millis(wait) + 500 == extended.validity_time,
        prolonged is Ok <==> duration_millis(ttl) <= usize::MAX,
        prolonged matches Ok(attempt) ==> {
            &&& attempt@.manager == manager@
            &&& attempt@.resource == extended.resource@
            &&& attempt@.value == extended.val@
            &&& attempt@.ttl == duration_millis(ttl)
            &&& attempt@.function is Extend
            &&& attempt@.current_try == 1
        },
        all_release(requests@, servers.len(), extended.resource@, extended.val@),
{
}

/// The use of a lock ends with the reason why it was not acquired or not prolonged, and with no
/// other.
pub proof fn law_the_use_of_a_lock_ends_with_the_reason(
    manager: &LockManager,
    acquired: Result<Lock, LockError>,
    ttl: Duration,
    result: Result<Using, LockError>,
    using: Using,
    extended: Result<Lock, LockError>,
    next: Result<Using, LockError>,
)
    requires
        call_ensures(LockManager::using, (manager, acquired, ttl), result),
        call_ensures(Using::extended, (using, extended), next),
    ensures
        acquired is Ok <==> result is Ok,
        acquired matches Err(error) ==> result->Err_0 == error,
        extended is Ok <==> next is Ok,
        extended matches Err(error) ==> next->Err_0 == error,
{
}

/// Every call is accepted: these functions ask nothing of their arguments, except that the
/// servers can be counted, and that a lock in use is valid for half a second.
pub proof fn law_every_call_of_a_manager_is_accepted<T: RedisUri>(
    uris: Vec<T>,
    clients: Vec<redis::Client>,
    client: redis::cluster::ClusterClient,
    manager: &LockManager,
    inner: &LockManagerInner,
    lock: Lock,
    guard: &LockGuard,
    key: &[u8],
    results: Vec<Result<Option<Vec<u8>>, LockError>>,
    found: Result<Option<Vec<u8>>, LockError>,
    result: Result<Lock, LockError>,
    ttl: Duration,
    using: Using,
)
    ensures
        uris@.len() <= u32::MAX ==> call_requires(LockManager::open::<T>, (uris,)),
        clients@.len() <= u32::MAX ==> call_requires(LockManager::from_clients, (clients,)),
        call_requires(LockManager::new_cluster::<T>, (uris,)),
        call_requires(LockManager::from_cluster_client, (client,)),
        call_requires(LockManager::get_unique_lock_id, (manager,)),
        call_requires(LockManager::lock_inner, (manager,)),
        call_requires(LockManagerInner::servers, (inner,)),
        call_requires(LockManagerInner::get_quorum, (inner,)),
        call_requires(LockManager::unlock, (manager, &lock)),
        call_requires(LockGuard::release, (guard,)),
        call_requires(LockManager::query, (manager, key)),
        call_requires(LockManager::query_redis_for_key_value, (manager, results)),
        call_requires(LockManager::is_freed, (manager, &lock, found)),
        call_requires(LockManager::acquire_no_guard, (manager, result)),
        call_requires(LockManager::acquire, (manager, result)),
        (result is Ok ==> result->Ok_0.validity_time >= 500) ==> call_requires(
            LockManager::using,
            (manager, result, ttl),
        ),
        (result is Ok ==> result->Ok_0.validity_time >= 500) ==> call_requires(
            Using::extended,
            (using, result),
        ),
        call_requires(Using::threshold, (&using,)),
        call_requires(Using::timed_out, (&using,)),
        call_requires(Using::finished, (&using,)),
{
}

} // verus!
