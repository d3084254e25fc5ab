//! What holds of the requests to one server, and of what its replies are taken for.

use crate::backend::{
    call_args, call_code, call_keys, cmd_words, decimal, is_okay, unrecoverable,
};
use crate::connection::{
    Exchange, RedisClient, RestorableConnection, ScriptRequest, Verdict, EXTEND_SCRIPT,
    UNLOCK_SCRIPT,
};
use crate::error::LockError;
use crate::resource::{LockResource, ToLockResource};

use vstd::prelude::*;
use vstd::string::to_string_from_display_ensures;
use vstd::utf8::encode_utf8;

verus! {

/// Numbers are written digit by digit: a digit is itself, and a longer number is what stands in
/// front of its last digit, with that digit behind it.
pub proof fn law_numbers_are_written_in_decimal(front: nat, digit: nat)
    requires
        digit < 10,
    ensures
        decimal(digit) == seq![(48 + digit) as u8],
        front > 0 ==> decimal(10 * front + digit) == decimal(front).push((48 + digit) as u8),
{
    if front > 0 {
        assert((10 * front + digit) / 10 == front);
        assert((10 * front + digit) % 10 == digit);
    }
}

/// Different numbers are written differently.
pub proof fn law_different_numbers_are_written_differently(a: nat, b: nat)
    requires
        decimal(a) == decimal(b),
    ensures
        a == b,
    decreases a,
{
    lemma_decimal_has_digits(a);
    lemma_decimal_has_digits(b);
    assert(decimal(a).last() == 48 + a % 10);
    assert(decimal(b).last() == 48 + b % 10);
    if a >= 10 || b >= 10 {
        assert(decimal(a).drop_last() =~= if a < 10 {
            Seq::<u8>::empty()
        } else {
            decimal(a / 10)
        });
        assert(decimal(b).drop_last() =~= if b < 10 {
            Seq::<u8>::empty()
        } else {
            decimal(b / 10)
        });
        lemma_decimal_has_digits(a / 10);
        lemma_decimal_has_digits(b / 10);
        law_different_numbers_are_written_differently(a / 10, b / 10);
    }
}

proof fn lemma_decimal_has_digits(n: nat)
    ensures
        decimal(n).len() > 0,
    decreases n,
{
    if n >= 10 {
        lemma_decimal_has_digits(n / 10);
    }
}

/// A server is asked for a lock by `SET` with the whole key, the whole value and the full time to
/// live, on the condition that the key has no value.
pub proof fn law_a_lock_is_asked_for_in_full(
    server: &RestorableConnection,
    resource: &LockResource<'_>,
    key: Vec<u8>,
    val: &[u8],
    ttl: usize,
    cmd: redis::Cmd,
)
    requires
        call_ensures(LockResource::<'_>::to_vec, (resource,), key),
        call_ensures(RestorableConnection::lock, (server, resource, val, ttl), cmd),
    ensures
        cmd_words(cmd) == seq![
            encode_utf8("SET"@),
            key@,
            val@,
            encode_utf8("NX"@),
            encode_utf8("PX"@),
            decimal(ttl as nat),
        ],
{
}

/// A server is asked to prolong a lock by the script for it, run on the whole key, with the whole
/// value and the full time to live.
pub proof fn law_an_extension_is_asked_for_in_full(
    server: &RestorableConnection,
    resource: &LockResource<'_>,
    key: Vec<u8>,
    val: &[u8],
    ttl: usize,
    request: ScriptRequest,
    call: redis::ScriptInvocation<'_>,
)
    requires
        call_ensures(LockResource::<'_>::to_vec, (resource,), key),
        call_ensures(RestorableConnection::extend, (server, resource, val, ttl), request),
        call_ensures(ScriptRequest::invocation, (&request,), call),
    ensures
        call_code(call) == EXTEND_SCRIPT@,
        call_keys(call) == seq![key@],
        call_args(call) == seq![val@, decimal(ttl as nat)],
{
}

/// A server is asked to give a lock up by the script for it, run on the whole key and with the
/// whole value.
pub proof fn law_a_release_is_asked_for_in_full<'a, R: ToLockResource<'a>>(
    server: &RestorableConnection,
    name: R,
    resource: LockResource<'a>,
    key: Vec<u8>,
    val: &[u8],
    request: ScriptRequest,
    call: redis::ScriptInvocation<'_>,
)
    requires
        call_ensures(R::to_lock_resource, (name,), resource),
        call_ensures(LockResource::<'a>::to_vec, (&resource,), key),
        call_ensures(RestorableConnection::unlock::<R>, (server, name, val), request),
        call_ensures(ScriptRequest::invocation, (&request,), call),
    ensures
        call_code(call) == UNLOCK_SCRIPT@,
        call_keys(call) == seq![key@],
        call_args(call) == seq![val@],
{
}

/// The call of a script request runs what the request holds: its text, its keys and its
/// arguments.
pub proof fn law_a_script_request_is_run_as_it_is(
    request: ScriptRequest,
    call: redis::ScriptInvocation<'_>,
)
    requires
        call_ensures(ScriptRequest::invocation, (&request,), call),
    ensures
        call_code(call) == request@.code,
        call_keys(call) == request@.keys,
        call_args(call) == request@.args,
{
}

/// A server is asked for the value of a key by `GET` with the whole key.
pub proof fn law_a_key_is_looked_up_in_full(
    server: &RestorableConnection,
    key: &[u8],
    cmd: redis::Cmd,
)
    requires
        call_ensures(RestorableConnection::query, (server, key), cmd),
    ensures
        cmd_words(cmd) == seq![encode_utf8("GET"@), key@],
{
}

/// A server has granted a lock exactly if it replied `OK`, and its connection is made anew
/// exactly if the exchange failed with an error that it cannot recover from.
pub proof fn law_a_lock_is_granted_by_ok(
    server: &RestorableConnection,
    exchange: Exchange<redis::Value>,
    verdict: Verdict,
)
    requires
        call_ensures(RestorableConnection::lock_reply, (server, exchange), verdict),
    ensures
        verdict.granted <==> (exchange matches Exchange::Reply(value) && is_okay(value)),
        verdict.reconnect <==> (exchange matches Exchange::Failed(error) && unrecoverable(error)),
{
}

/// A server has prolonged a lock exactly if the script replied 1.
pub proof fn law_an_extension_is_granted_by_one(
    server: &RestorableConnection,
    exchange: Exchange<i32>,
    verdict: Verdict,
)
    requires
        call_ensures(RestorableConnection::extend_reply, (server, exchange), verdict),
    ensures
        verdict.granted <==> exchange == Exchange::Reply(1i32),
        verdict.reconnect <==> (exchange matches Exchange::Failed(error) && unrecoverable(error)),
{
}

/// A server has given a lock up exactly if the script replied 1.
pub proof fn law_a_release_is_confirmed_by_one(
    server: &RestorableConnection,
    exchange: Exchange<i32>,
    verdict: Verdict,
)
    requires
        call_ensures(RestorableConnection::unlock_reply, (server, exchange), verdict),
    ensures
        verdict.granted <==> exchange == Exchange::Reply(1i32),
        verdict.reconnect <==> (exchange matches Exchange::Failed(error) && unrecoverable(error)),
{
}

/// What a server found under a key is what it replied, and there is an answer only if it replied.
pub proof fn law_only_a_reply_answers_a_query(
    server: &RestorableConnection,
    exchange: Exchange<Option<Vec<u8>>>,
    found: Result<Option<Vec<u8>>, LockError>,
)
    requires
        call_ensures(RestorableConnection::query_reply, (server, exchange), found),
    ensures
        forall|value: Option<Vec<u8>>|
            found == Ok::<_, LockError>(value) <==> exchange == Exchange::Reply(value),
        forall|error: LockError|
            exchange == Exchange::<Option<Vec<u8>>>::NoConnection(error) ==> found == Err::<
                Option<Vec<u8>>,
                _,
            >(error),
        forall|error: redis::RedisError|
            exchange == Exchange::<Option<Vec<u8>>>::Failed(error) ==> found == Err::<
                Option<Vec<u8>>,
                _,
            >(LockError::Redis(error)),
{
}

/// The connection is made anew exactly after errors that it cannot recover from.
pub proof fn law_a_connection_is_made_anew_if_it_must(
    server: &RestorableConnection,
    error: &redis::RedisError,
    reconnect: bool,
)
    requires
        call_ensures(RestorableConnection::recover, (server, error), reconnect),
    ensures
        reconnect <==> unrecoverable(*error),
{
}

/// A connection that is kept is handed out, and otherwise none is.
pub proof fn law_a_kept_connection_is_handed_out<C: Clone>(
    server: &RestorableConnection,
    con: &Option<C>,
    handle: Option<C>,
)
    requires
        call_ensures(RestorableConnection::get_connection::<C>, (server, con), handle),
    ensures
        handle is Some <==> *con is Some,
        *con matches Some(kept) ==> (handle matches Some(copy) && cloned(kept, copy)),
{
}

/// A connection that was made is kept and handed out. If it could not be made, nothing is kept
/// in its place, and the reason is handed out.
pub proof fn law_a_new_connection_is_kept<C: Clone>(
    server: &RestorableConnection,
    con: &mut Option<C>,
    result: Result<C, redis::RedisError>,
    handle: Result<C, LockError>,
)
    requires
        call_ensures(RestorableConnection::connected::<C>, (server, con, result), handle),
    ensures
        result matches Ok(made) ==> *final(con) == Some(made) && (handle matches Ok(copy)
            && cloned(made, copy)),
        result matches Err(error) ==> *final(con) == *old(con) && (handle matches Err(
            LockError::Redis(cause),
        ) && cause == error),
{
}

/// A connection that was made anew replaces the old one. If it could not be made, the old one
/// stays, and the reason is handed out.
pub proof fn law_a_connection_made_anew_is_kept<C>(
    server: &RestorableConnection,
    con: &mut Option<C>,
    result: Result<C, redis::RedisError>,
    outcome: Result<(), LockError>,
)
    requires
        call_ensures(RestorableConnection::reconnected::<C>, (server, con, result), outcome),
    ensures
        result matches Ok(made) ==> *final(con) == Some(made) && outcome is Ok,
        result matches Err(error) ==> *final(con) == *old(con) && (outcome matches Err(
            LockError::Redis(cause),
        ) && cause == error),
{
}

/// A server is reached by the client that it was made from, whose kind it shows.
pub proof fn law_a_server_keeps_its_client(
    client: redis::Client,
    standalone: RestorableConnection,
    cluster_client: redis::cluster::ClusterClient,
    cluster: RestorableConnection,
)
    requires
        call_ensures(RestorableConnection::new, (client,), standalone),
        call_ensures(RestorableConnection::new_cluster, (cluster_client,), cluster),
    ensures
        standalone.client == RedisClient::Standalone(client),
        cluster.client == RedisClient::Cluster(cluster_client),
{
}

/// The kind of a client is told by its word.
pub proof fn law_a_client_shows_its_kind(client: &RedisClient, word: &'static str)
    requires
        call_ensures(RedisClient::kind, (client,), word),
    ensures
        client is Standalone ==> word@ == "Standalone"@,
        client is Cluster ==> word@ == "Cluster"@,
{
}

/// The message of an error with a cause ends with the cause's own message.
pub proof fn law_a_cause_is_told_in_full(
    io: std::io::Error,
    io_text: String,
    redis: redis::RedisError,
    redis_text: String,
)
    requires
        call_ensures(LockError::message, (&LockError::Io(io),), io_text),
        call_ensures(LockError::message, (&LockError::Redis(redis),), redis_text),
    ensures
        exists|cause: String|
            to_string_from_display_ensures::<std::io::Error>(&io, cause) && io_text@
                == "IO error: "@ + #[trigger] cause@,
        exists|cause: String|
            to_string_from_display_ensures::<redis::RedisError>(&redis, cause) && redis_text@
                == "Redis error: "@ + #[trigger] cause@,
{
}

/// An error of the operating system and an error of a server are kept as they are.
pub proof fn law_a_cause_is_kept(
    io: std::io::Error,
    from_io: LockError,
    redis: redis::RedisError,
    from_redis: LockError,
)
    requires
        call_ensures(<LockError as From<std::io::Error>>::from, (io,), from_io),
        call_ensures(<LockError as From<redis::RedisError>>::from, (redis,), from_redis),
    ensures
        from_io == LockError::Io(io),
        from_redis == LockError::Redis(redis),
{
}

/// The message of an error without a cause is its own.
pub proof fn law_an_error_tells_what_is_wrong(error: LockError, text: String)
    requires
        call_ensures(LockError::message, (&error,), text),
    ensures
        error is Unavailable ==> text@ == "Resource is unavailable"@,
        error is TtlExceeded ==> text@ == "TTL exceeded"@,
        error is TtlTooLarge ==> text@ == "TTL too large"@,
        error is RedisConnectionFailed ==> text@ == "Redis connection failed for all servers"@,
        error is RedisFailedToEstablishConnection ==> text@ == "Redis connection failed."@,
        error is RedisKeyMismatch ==> text@
            == "Redis key mismatch: expected value does not match actual value"@,
        error is RedisKeyNotFound ==> text@ == "Redis key not found"@,
        error is MutexPoisoned ==> text@ == "A mutex was poisoned"@,
{
}

} // verus!
