//! What the requests of this library do on a Redis server, as far as locks are concerned.
//!
//! A server is modelled by the keys that it stores, each with a value and the last millisecond
//! of its life on the server's own clock. The laws of the library speak of this model.

use crate::backend::decimal;
use crate::connection::{
    extend_call, query_words, unlock_call, ScriptCall, EXTEND_SCRIPT, UNLOCK_SCRIPT,
};
use crate::redlock;

use vstd::prelude::*;
use vstd::utf8::encode_utf8;

verus! {

/// What is stored under a key.
pub struct Entry {
    pub value: Seq<u8>,
    /// The key expires after this millisecond.
    pub expires_at: int,
}

/// The keys of a server. Keys that have expired may still be among them.
pub type Store = Map<Seq<u8>, Entry>;

/// What a server answers.
pub enum Reply {
    Okay,
    Nil,
    Int(int),
    Bulk(Seq<u8>),
    Error,
}

/// The value of a key at the time `now`, if it has one.
pub open spec fn live(store: Store, now: int, key: Seq<u8>) -> Option<Seq<u8>> {
    if store.contains_key(key) && now <= store[key].expires_at {
        Some(store[key].value)
    } else {
        None
    }
}

/// The number that decimal digits stand for.
pub open spec fn number(digits: Seq<u8>) -> int
    decreases digits.len(),
{
    if digits.len() == 0 {
        0
    } else {
        number(digits.drop_last()) * 10 + (digits.last() - 48)
    }
}

/// A time to live that a server accepts: it is positive, and its end can still be counted in
/// milliseconds.
pub open spec fn acceptable(now: int, ttl: int) -> bool {
    0 < ttl && now + ttl <= i64::MAX
}

/// The option `name`, which is not sensitive to case.
pub open spec fn is_option(word: Seq<u8>, upper: &str, lower: &str) -> bool {
    word == encode_utf8(upper@) || word == encode_utf8(lower@)
}

/// `SET key value NX PX ttl`: stores the value, unless the key has one.
pub open spec fn set_if_absent(
    store: Store,
    now: int,
    key: Seq<u8>,
    value: Seq<u8>,
    ttl: int,
) -> (Store, Reply) {
    if !acceptable(now, ttl) {
        (store, Reply::Error)
    } else if live(store, now, key) is Some {
        (store, Reply::Nil)
    } else {
        (store.insert(key, Entry { value, expires_at: now + ttl }), Reply::Okay)
    }
}

/// What a server does with a command. Commands that this library does not send are of no
/// interest: they count as errors.
pub open spec fn run_command(store: Store, now: int, words: Seq<Seq<u8>>) -> (Store, Reply) {
    if words.len() == 6 && words[0] == encode_utf8("SET"@) && is_option(words[3], "NX", "nx")
        && is_option(words[4], "PX", "px") {
        set_if_absent(store, now, words[1], words[2], number(words[5]))
    } else if words.len() == 2 && words[0] == encode_utf8("GET"@) {
        match live(store, now, words[1]) {
            Some(value) => (store, Reply::Bulk(value)),
            None => (store, Reply::Nil),
        }
    } else {
        (store, Reply::Error)
    }
}

/// What a server does with a script run: what the Lua text says. Scripts that this library does
/// not send count as errors.
pub open spec fn run_script(store: Store, now: int, call: ScriptCall) -> (Store, Reply) {
    if call.keys.len() == 1 && call.args.len() == 1 && (call.code == UNLOCK_SCRIPT@ || call.code
        == redlock::UNLOCK_SCRIPT@) {
        if live(store, now, call.keys[0]) == Some(call.args[0]) {
            (store.remove(call.keys[0]), Reply::Int(1))
        } else {
            (store, Reply::Int(0))
        }
    } else if call.keys.len() == 1 && call.args.len() == 2 && call.code == EXTEND_SCRIPT@ {
        let ttl = number(call.args[1]);
        if live(store, now, call.keys[0]) != Some(call.args[0]) {
            (store, Reply::Int(0))
        } else if !acceptable(now, ttl) {
            (store, Reply::Error)
        } else {
            (
                store.insert(
                    call.keys[0],
                    Entry { value: call.args[0], expires_at: now + ttl },
                ),
                Reply::Int(1),
            )
        }
    } else {
        (store, Reply::Error)
    }
}

/// What is sent to a server.
pub enum ServerRequest {
    Command(Seq<Seq<u8>>),
    Script(ScriptCall),
}

/// What a server does with a request.
pub open spec fn run_request(store: Store, now: int, request: ServerRequest) -> (Store, Reply) {
    match request {
        ServerRequest::Command(words) => run_command(store, now, words),
        ServerRequest::Script(call) => run_script(store, now, call),
    }
}

/// The server did what it was asked for: it answered `OK` to a command, and 1 to a script.
pub open spec fn grants(reply: Reply) -> bool {
    reply == Reply::Okay || reply == Reply::Int(1)
}

/// `request` is one that a client of this library sends, and it is not for the lock `val` on
/// `key`: it is about another key, or it comes from the owner of another value, or it only
/// reads.
pub open spec fn is_foreign(request: ServerRequest, key: Seq<u8>, val: Seq<u8>) -> bool {
    ||| exists|k: Seq<u8>| request == ServerRequest::Command(#[trigger] query_words(k))
    ||| exists|k: Seq<u8>, v: Seq<u8>, ttl: nat|
        (k != key || v != val) && request == ServerRequest::Command(
            #[trigger] crate::connection::lock_words(k, v, ttl),
        )
    ||| exists|k: Seq<u8>, v: Seq<u8>, ttl: nat|
        (k != key || v != val) && request == ServerRequest::Command(
            #[trigger] redlock::lock_words(k, v, ttl),
        )
    ||| exists|k: Seq<u8>, v: Seq<u8>, ttl: nat|
        (k != key || v != val) && request == ServerRequest::Script(#[trigger] extend_call(k, v, ttl))
    ||| exists|k: Seq<u8>, v: Seq<u8>|
        (k != key || v != val) && request == ServerRequest::Script(#[trigger] unlock_call(k, v))
    ||| exists|k: Seq<u8>, v: Seq<u8>|
        (k != key || v != val) && request == ServerRequest::Script(
            #[trigger] redlock::unlock_call(k, v),
        )
}

/// A request and the time at which the server runs it.
pub struct Arrival {
    pub at: int,
    pub request: ServerRequest,
}

/// The keys of a server after it has run requests one after another.
pub open spec fn run_all(store: Store, arrivals: Seq<Arrival>) -> Store
    decreases arrivals.len(),
{
    if arrivals.len() == 0 {
        store
    } else {
        run_request(run_all(store, arrivals.drop_last()), arrivals.last().at, arrivals.last().request).0
    }
}

/// Decimal digits stand for the number that they were made from.
pub proof fn lemma_number_of_decimal(n: nat)
    ensures
        number(decimal(n)) == n,
    decreases n,
{
    if n < 10 {
        assert(decimal(n).drop_last() =~= Seq::<u8>::empty());
        assert(number(decimal(n).drop_last()) == 0);
    } else {
        lemma_number_of_decimal(n / 10);
        assert(decimal(n).drop_last() =~= decimal(n / 10));
    }
}

} // verus!
