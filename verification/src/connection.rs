//! One server of a lock manager: what is sent to it, what its replies mean, and when the
//! connection to it is made anew.

use crate::backend::{
    call_args, call_code, call_keys, call_with_key, cmd_words, decimal, is_okay, push_bytes,
    push_call_bytes, push_call_number, push_number, script_code, unrecoverable, value_is_okay,
};
use crate::error::LockError;
use crate::format::{write_text, written};
use crate::resource::{copy_of, LockResource, ToLockResource};

use vstd::prelude::*;
use vstd::utf8::encode_utf8;

verus! {

/// Deletes `KEYS[1]` if it holds `ARGV[1]`.
pub const UNLOCK_SCRIPT: &'static str = r#"
if redis.call("GET", KEYS[1]) == ARGV[1] then
  return redis.call("DEL", KEYS[1])
else
  return 0
end
"#;

/// Lets `KEYS[1]` live for another `ARGV[2]` milliseconds from now on if it holds `ARGV[1]`.
pub const EXTEND_SCRIPT: &'static str = r#"
if redis.call("get", KEYS[1]) ~= ARGV[1] then
  return 0
else
  if redis.call("set", KEYS[1], ARGV[1], "PX", ARGV[2]) ~= nil then
    return 1
  else
    return 0
  end
end
"#;

/// How a server is reached.
pub enum RedisClient {
    Standalone(redis::Client),
    Cluster(redis::cluster::ClusterClient),
}

impl RedisClient {
    /// Which kind of client this is, in a word.
    pub open spec fn word(self) -> Seq<char> {
        match self {
            RedisClient::Standalone(_) => "Standalone"@,
            RedisClient::Cluster(_) => "Cluster"@,
        }
    }

    /// Which kind of client this is, in a word.
    pub fn kind(&self) -> (word: &'static str)
        ensures
            word@ == self.word(),
    {
        match self {
            RedisClient::Standalone(_) => "Standalone",
            RedisClient::Cluster(_) => "Cluster",
        }
    }
}

impl std::fmt::Debug for RedisClient {
    /// Writes which kind of client this is, and nothing of the client itself.
    fn fmt(&self, formatter: &mut std::fmt::Formatter<'_>) -> (done: Result<(), std::fmt::Error>)
        ensures
            done is Ok ==> written(*final(formatter)) == written(*old(formatter)) + self.word(),
    {
        write_text(formatter, self.kind())
    }
}

/// What a prepared script run consists of.
pub struct ScriptCall {
    pub code: Seq<char>,
    pub keys: Seq<Seq<u8>>,
    pub args: Seq<Seq<u8>>,
}

/// A script that is to be run on one key, for the holder of `val`.
pub struct ScriptRequest {
    script: redis::Script,
    key: Vec<u8>,
    val: Vec<u8>,
    ttl: Option<usize>,
}

impl View for ScriptRequest {
    type V = ScriptCall;

    closed spec fn view(&self) -> ScriptCall {
        ScriptCall {
            code: script_code(self.script),
            keys: seq![self.key@],
            args: match self.ttl {
                Some(ttl) => seq![self.val@, decimal(ttl as nat)],
                None => seq![self.val@],
            },
        }
    }
}

impl ScriptRequest {
    /// A run of the script `code` on `key` for the holder of `val`, with a time to live if there
    /// is one.
    pub(crate) fn new(code: &str, key: Vec<u8>, val: Vec<u8>, ttl: Option<usize>) -> (request:
        ScriptRequest)
        ensures
            request@ == (ScriptCall {
                code: code@,
                keys: seq![key@],
                args: match ttl {
                    Some(ttl) => seq![val@, decimal(ttl as nat)],
                    None => seq![val@],
                },
            }),
    {
        ScriptRequest { script: redis::Script::new(code), key, val, ttl }
    }

    /// The call that runs the script.
    pub fn invocation(&self) -> (call: redis::ScriptInvocation<'_>)
        ensures
            call_code(call) == self@.code,
            call_keys(call) == self@.keys,
            call_args(call) == self@.args,
    {
        let mut call = call_with_key(&self.script, self.key.as_slice());
        push_call_bytes(&mut call, self.val.as_slice());
        match self.ttl {
            Some(ttl) => push_call_number(&mut call, ttl),
            None => {},
        }
        assert(call_args(call) =~= self@.args);
        call
    }
}

/// How the sending of one request to one server went.
pub enum Exchange<T> {
    /// There was no connection to send it on.
    NoConnection(LockError),
    /// The server replied.
    Reply(T),
    /// It was sent, or tried to be, and there is no reply.
    Failed(redis::RedisError),
}

impl<T> Exchange<T> {
    /// The connection is of no use any more.
    pub open spec fn broke_connection(self) -> bool {
        self matches Exchange::Failed(error) && unrecoverable(error)
    }
}

/// What follows from an exchange.
pub struct Verdict {
    /// The server did what it was asked for.
    pub granted: bool,
    /// The connection has to be made anew. Whether that succeeds changes nothing in `granted`.
    pub reconnect: bool,
}

/// The command that takes a lock: it stores `val` under `key` for `ttl` milliseconds, unless
/// something is stored there.
pub open spec fn lock_words(key: Seq<u8>, val: Seq<u8>, ttl: nat) -> Seq<Seq<u8>> {
    seq![encode_utf8("SET"@), key, val, encode_utf8("NX"@), encode_utf8("PX"@), decimal(ttl)]
}

/// The command that reads what is stored under `key`.
pub open spec fn query_words(key: Seq<u8>) -> Seq<Seq<u8>> {
    seq![encode_utf8("GET"@), key]
}

/// The script run that prolongs a lock.
pub open spec fn extend_call(key: Seq<u8>, val: Seq<u8>, ttl: nat) -> ScriptCall {
    ScriptCall { code: EXTEND_SCRIPT@, keys: seq![key], args: seq![val, decimal(ttl)] }
}

/// The script run that gives a lock up.
pub open spec fn unlock_call(key: Seq<u8>, val: Seq<u8>) -> ScriptCall {
    ScriptCall { code: UNLOCK_SCRIPT@, keys: seq![key], args: seq![val] }
}

/// One of the servers that a lock is spread over. The connection to it is kept by the caller,
/// who hands it in.
#[derive(Debug)]
pub struct RestorableConnection {
    pub client: RedisClient,
}

impl RestorableConnection {
    pub fn new(client: redis::Client) -> (server: Self)
        ensures
            server.client == RedisClient::Standalone(client),
    {
        RestorableConnection { client: RedisClient::Standalone(client) }
    }

    pub fn new_cluster(client: redis::cluster::ClusterClient) -> (server: Self)
        ensures
            server.client == RedisClient::Cluster(client),
    {
        RestorableConnection { client: RedisClient::Cluster(client) }
    }

    /// A handle of the connection that is kept in `con`. Where none is kept, one has to be made
    /// and handed to `connected`.
    pub fn get_connection<C: Clone>(&self, con: &Option<C>) -> (handle: Option<C>)
        ensures
            match *con {
                Some(kept) => handle matches Some(copy) && cloned(kept, copy),
                None => handle is None,
            },
    {
        match con {
            Some(kept) => Some(kept.clone()),
            None => None,
        }
    }

    /// Keeps a connection that was made because there was none, and hands out a handle of it.
    /// If it could not be made, what is kept stays as it is.
    pub fn connected<C: Clone>(
        &self,
        con: &mut Option<C>,
        result: Result<C, redis::RedisError>,
    ) -> (handle: Result<C, LockError>)
        ensures
            match result {
                Ok(made) => *final(con) == Some(made) && (handle matches Ok(copy) && cloned(
                    made,
                    copy,
                )),
                Err(error) => *final(con) == *old(con) && handle == Err::<C, LockError>(
                    LockError::Redis(error),
                ),
            },
    {
        match result {
            Ok(made) => {
                let handle = made.clone();
                *con = Some(made);
                Ok(handle)
            },
            Err(error) => Err(LockError::Redis(error)),
        }
    }

    /// Whether the connection has to be made anew after `error`. If so, what connecting gives is
    /// handed to `reconnected`.
    pub fn recover(&self, error: &redis::RedisError) -> (reconnect: bool)
        ensures
            reconnect == unrecoverable(*error),
    {
        error.is_unrecoverable_error()
    }

    /// Replaces the connection that is kept by one that was made anew. If it could not be made,
    /// the old one stays.
    pub fn reconnected<C>(
        &self,
        con: &mut Option<C>,
        result: Result<C, redis::RedisError>,
    ) -> (outcome: Result<(), LockError>)
        ensures
            match result {
                Ok(made) => *final(con) == Some(made) && outcome == Ok::<(), LockError>(()),
                Err(error) => *final(con) == *old(con) && outcome == Err::<(), LockError>(
                    LockError::Redis(error),
                ),
            },
    {
        match result {
            Ok(made) => {
                *con = Some(made);
                Ok(())
            },
            Err(error) => Err(LockError::Redis(error)),
        }
    }

    /// The command that asks the server for the lock.
    pub fn lock(&self, resource: &LockResource<'_>, val: &[u8], ttl: usize) -> (cmd: redis::Cmd)
        ensures
            cmd_words(cmd) == lock_words(resource@, val@, ttl as nat),
    {
        let mut cmd = redis::cmd("SET");
        push_bytes(&mut cmd, resource.as_slice());
        push_bytes(&mut cmd, val);
        push_bytes(&mut cmd, "NX".as_bytes());
        push_bytes(&mut cmd, "PX".as_bytes());
        push_number(&mut cmd, ttl);
        assert(cmd_words(cmd) =~= lock_words(resource@, val@, ttl as nat));
        cmd
    }

    /// What the server's answer to `lock` means: the lock is granted if the answer is `OK`.
    pub fn lock_reply(&self, exchange: Exchange<redis::Value>) -> (verdict: Verdict)
        ensures
            verdict.granted == (exchange matches Exchange::Reply(value) && is_okay(value)),
            verdict.reconnect == exchange.broke_connection(),
    {
        match exchange {
            Exchange::NoConnection(_) => Verdict { granted: false, reconnect: false },
            Exchange::Reply(value) => Verdict { granted: value_is_okay(&value), reconnect: false },
            Exchange::Failed(error) => Verdict { granted: false, reconnect: self.recover(&error) },
        }
    }

    /// The script run that asks the server to prolong the lock.
    pub fn extend(&self, resource: &LockResource<'_>, val: &[u8], ttl: usize) -> (request:
        ScriptRequest)
        ensures
            request@ == extend_call(resource@, val@, ttl as nat),
    {
        ScriptRequest::new(EXTEND_SCRIPT, resource.to_vec(), copy_of(val), Some(ttl))
    }

    /// What the server's answer to `extend` means: the lock is prolonged if the answer is 1.
    pub fn extend_reply(&self, exchange: Exchange<i32>) -> (verdict: Verdict)
        ensures
            verdict.granted == (exchange matches Exchange::Reply(value) && value == 1),
            verdict.reconnect == exchange.broke_connection(),
    {
        match exchange {
            Exchange::NoConnection(_) => Verdict { granted: false, reconnect: false },
            Exchange::Reply(value) => Verdict { granted: value == 1, reconnect: false },
            Exchange::Failed(error) => Verdict { granted: false, reconnect: self.recover(&error) },
        }
    }

    /// The script run that asks the server to give the lock up.
    pub fn unlock<'a, R: ToLockResource<'a>>(&self, resource: R, val: &[u8]) -> (request:
        ScriptRequest)
        ensures
            request@ == unlock_call(resource.key_bytes(), val@),
    {
        let resource = resource.to_lock_resource();
        ScriptRequest::new(UNLOCK_SCRIPT, resource.to_vec(), copy_of(val), None)
    }

    /// What the server's answer to `unlock` means: the lock was held and is given up if the
    /// answer is 1.
    pub fn unlock_reply(&self, exchange: Exchange<i32>) -> (verdict: Verdict)
        ensures
            verdict.granted == (exchange matches Exchange::Reply(value) && value == 1),
            verdict.reconnect == exchange.broke_connection(),
    {
        match exchange {
            Exchange::NoConnection(_) => Verdict { granted: false, reconnect: false },
            Exchange::Reply(value) => Verdict { granted: value == 1, reconnect: false },
            Exchange::Failed(error) => Verdict { granted: false, reconnect: self.recover(&error) },
        }
    }

    /// The command that asks the server what is stored under a key.
    pub fn query(&self, resource: &[u8]) -> (cmd: redis::Cmd)
        ensures
            cmd_words(cmd) == query_words(resource@),
    {
        let mut cmd = redis::cmd("GET");
        push_bytes(&mut cmd, resource);
        assert(cmd_words(cmd) =~= query_words(resource@));
        cmd
    }

    /// What the server's answer to `query` means: the value under the key, or that there is none.
    /// A server that cannot be reached, or fails, has not answered.
    pub fn query_reply(&self, exchange: Exchange<Option<Vec<u8>>>) -> (found: Result<
        Option<Vec<u8>>,
        LockError,
    >)
        ensures
            found == match exchange {
                Exchange::NoConnection(error) => Err(error),
                Exchange::Reply(value) => Ok(value),
                Exchange::Failed(error) => Err(LockError::Redis(error)),
            },
    {
        match exchange {
            Exchange::NoConnection(error) => Err(error),
            Exchange::Reply(value) => Ok(value),
            Exchange::Failed(error) => Err(LockError::Redis(error)),
        }
    }
}

} // verus!
