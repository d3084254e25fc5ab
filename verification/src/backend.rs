//! The parts of the `redis` crate that the library relies on: clients, requests and replies.

use vstd::prelude::*;
use vstd::utf8::encode_utf8;

verus! {

/// A Redis client: the address of a server and how to log in to it.
#[verifier::external_type_specification]
#[verifier::external_body]
pub struct ExClient(redis::Client);

/// A client of a Redis Cluster.
#[verifier::external_type_specification]
#[verifier::external_body]
pub struct ExClusterClient(redis::cluster::ClusterClient);

/// Why a call of the `redis` crate failed.
#[verifier::external_type_specification]
#[verifier::external_body]
pub struct ExRedisError(redis::RedisError);

/// What a server replied.
#[verifier::external_type_specification]
#[verifier::external_body]
pub struct ExValue(redis::Value);

/// A command: its name and its arguments.
#[verifier::external_type_specification]
#[verifier::external_body]
pub struct ExCmd(redis::Cmd);

/// A Lua script.
#[verifier::external_type_specification]
#[verifier::external_body]
pub struct ExScript(redis::Script);

/// A script with the keys and arguments that it is to run on.
#[verifier::external_type_specification]
#[verifier::external_body]
pub struct ExScriptInvocation<'a>(redis::ScriptInvocation<'a>);

/// The words of a command in order, its name first.
pub uninterp spec fn cmd_words(cmd: redis::Cmd) -> Seq<Seq<u8>>;

/// The Lua text of a script.
pub uninterp spec fn script_code(script: redis::Script) -> Seq<char>;

/// The Lua text that a prepared call runs.
pub uninterp spec fn call_code(call: redis::ScriptInvocation<'_>) -> Seq<char>;

/// `KEYS` of a prepared call.
pub uninterp spec fn call_keys(call: redis::ScriptInvocation<'_>) -> Seq<Seq<u8>>;

/// `ARGV` of a prepared call.
pub uninterp spec fn call_args(call: redis::ScriptInvocation<'_>) -> Seq<Seq<u8>>;

/// What `Client::open` makes of a connection string.
pub uninterp spec fn opened_client(uri: Seq<char>) -> Result<redis::Client, redis::RedisError>;

/// What `ClusterClient::new` makes of the connection strings of seed nodes.
pub uninterp spec fn opened_cluster(uris: Seq<Seq<char>>) -> Result<
    redis::cluster::ClusterClient,
    redis::RedisError,
>;

/// Whether `RedisError::is_unrecoverable_error` holds of an error.
pub uninterp spec fn unrecoverable(error: redis::RedisError) -> bool;

/// Whether a reply is the status `OK`.
pub uninterp spec fn is_okay(value: redis::Value) -> bool;

/// `n` in decimal digits, in ASCII.
pub open spec fn decimal(n: nat) -> Seq<u8>
    decreases n,
{
    if n < 10 {
        seq![(48 + n) as u8]
    } else {
        decimal(n / 10).push((48 + n % 10) as u8)
    }
}

/// `redis::cmd`: a command whose only word is the given name.
pub assume_specification[ redis::cmd ](name: &str) -> (cmd: redis::Cmd)
    ensures
        cmd_words(cmd) == seq![encode_utf8(name@)],
;

/// `Cmd::arg` on bytes: the bytes become one more word, also when there are none.
#[verifier::external_body]
pub(crate) fn push_bytes(cmd: &mut redis::Cmd, arg: &[u8])
    ensures
        cmd_words(*final(cmd)) == cmd_words(*old(cmd)).push(arg@),
{
    cmd.arg(arg);
}

/// `Cmd::arg` on an integer: its decimal digits become one more word.
#[verifier::external_body]
pub(crate) fn push_number(cmd: &mut redis::Cmd, arg: usize)
    ensures
        cmd_words(*final(cmd)) == cmd_words(*old(cmd)).push(decimal(arg as nat)),
{
    cmd.arg(arg);
}

/// `Script::new`: a script of the given text.
pub assume_specification[ redis::Script::new ](code: &str) -> (script: redis::Script)
    ensures
        script_code(script) == code@,
;

/// `Script::key` on bytes: a call of the script with the bytes as its only key and without
/// arguments.
#[verifier::external_body]
pub(crate) fn call_with_key<'a>(script: &'a redis::Script, key: &[u8]) -> (call:
    redis::ScriptInvocation<'a>)
    ensures
        call_code(call) == script_code(*script),
        call_keys(call) == seq![key@],
        call_args(call) == Seq::<Seq<u8>>::empty(),
{
    script.key(key)
}

/// `ScriptInvocation::arg` on bytes: the bytes become one more argument.
#[verifier::external_body]
pub(crate) fn push_call_bytes(call: &mut redis::ScriptInvocation<'_>, arg: &[u8])
    ensures
        call_code(*final(call)) == call_code(*old(call)),
        call_keys(*final(call)) == call_keys(*old(call)),
        call_args(*final(call)) == call_args(*old(call)).push(arg@),
{
    call.arg(arg);
}

/// `ScriptInvocation::arg` on an integer: its decimal digits become one more argument.
#[verifier::external_body]
pub(crate) fn push_call_number(call: &mut redis::ScriptInvocation<'_>, arg: usize)
    ensures
        call_code(*final(call)) == call_code(*old(call)),
        call_keys(*final(call)) == call_keys(*old(call)),
        call_args(*final(call)) == call_args(*old(call)).push(decimal(arg as nat)),
{
    call.arg(arg);
}

/// `Client::open` on a connection string: it parses the string and connects to nothing. The
/// result has the name `opened_client`.
#[verifier::external_body]
pub(crate) fn open_client(uri: &str) -> (client: Result<redis::Client, redis::RedisError>)
    ensures
        client == opened_client(uri@),
{
    redis::Client::open(uri)
}

/// `ClusterClient::new` on connection strings: it parses the strings, wants at least one, and
/// wants them to agree on how to log in; it connects to nothing. The result has the name
/// `opened_cluster`.
#[verifier::external_body]
pub(crate) fn open_cluster(uris: Vec<&str>) -> (client: Result<
    redis::cluster::ClusterClient,
    redis::RedisError,
>)
    ensures
        client == opened_cluster(uris@.map_values(|uri: &str| uri@)),
{
    redis::cluster::ClusterClient::new(uris)
}

/// `RedisError::is_unrecoverable_error`: a function of the error alone, with the name
/// `unrecoverable`.
pub assume_specification[ redis::RedisError::is_unrecoverable_error ](
    error: &redis::RedisError,
) -> (b: bool)
    ensures
        b == unrecoverable(*error),
;

/// Tells the variant `Value::Okay` from the others.
#[verifier::external_body]
pub(crate) fn value_is_okay(value: &redis::Value) -> (b: bool)
    ensures
        b == is_okay(*value),
{
    matches!(value, redis::Value::Okay)
}

} // verus!
