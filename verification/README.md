# rslock

Redlock, the distributed locking mechanism on top of Redis, as a verified library.

A lock is a key with a random value and a time to live, stored on a majority of independent
servers. The library in `src/` decides what to send to the servers, what their replies mean,
and when a lock is held, lost or given up. Every function carries a contract that Verus checks.
`src/laws.rs` states what holds of locks as a whole, over the model of a server in
`src/server.rs`:

- a lock has at most one owner while it is valid, whichever lock managers are used, even if the
  clocks of the servers are one percent fast and servers fail to answer
- a valid lock can be prolonged; extending renews its duration and adds nothing to what was left
- only the owner unlocks, and an unlocked resource can be locked again
- an attempt ends after as many rounds as the retry count, and a rejected round leaves nothing
  behind

The library opens no connection and never waits. `app/` does both: it holds an asynchronous
lock manager, a blocking one, and a program in which workers increment a counter under a lock.

`tests/` runs the library against servers that are kept in memory.

What is taken on trust of the `redis` and `rand` crates and of `std` stands in `src/backend.rs`,
`src/random.rs`, `src/clock.rs`, `src/format.rs` and `src/error.rs`.
