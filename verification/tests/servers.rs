//! Locks on servers that are kept in memory: requests are sent over a connection that answers
//! like Redis does, on a clock that the tests set.

use std::collections::HashMap;
use std::time::Duration;

use rand::Rng;
use redis::{ConnectionLike, ErrorKind, RedisError, RedisResult, Value};

use rslock::attempt::{Attempt, Operation, Outcome, Request, Retry};
use rslock::connection::{Exchange, ScriptRequest};
use rslock::redlock::{self, LockIdError, RedLock, RedLockGuard};
use rslock::resource::ToLockResource;
use rslock::{Lock, LockError, LockGuard, LockManager};

const LUA_UNLOCK: &str = "\nif redis.call(\"GET\", KEYS[1]) == ARGV[1] then\n  return redis.call(\"DEL\", KEYS[1])\nelse\n  return 0\nend\n";

const LUA_EXTEND: &str = "\nif redis.call(\"get\", KEYS[1]) ~= ARGV[1] then\n  return 0\nelse\n  if redis.call(\"set\", KEYS[1], ARGV[1], \"PX\", ARGV[2]) ~= nil then\n    return 1\n  else\n    return 0\n  end\nend\n";

const LUA_BLOCKING_UNLOCK: &str = "if redis.call('get',KEYS[1]) == ARGV[1] then\n                                return redis.call('del',KEYS[1])\n                              else\n                                return 0\n                              end";

/// A server that is kept in memory.
struct FakeServer {
    /// In milliseconds.
    now: i64,
    reachable: bool,
    /// What the next request fails with instead of being run.
    broken: Option<RedisError>,
    keys: HashMap<Vec<u8>, (Vec<u8>, Option<i64>)>,
    scripts: HashMap<Vec<u8>, String>,
    requests: Vec<Vec<Vec<u8>>>,
}

impl FakeServer {
    fn new() -> FakeServer {
        FakeServer {
            now: 1_700_000_000_000,
            reachable: true,
            broken: None,
            keys: HashMap::new(),
            scripts: HashMap::new(),
            requests: Vec::new(),
        }
    }

    fn get(&self, key: &[u8]) -> Option<Vec<u8>> {
        match self.keys.get(key) {
            Some((value, None)) => Some(value.clone()),
            Some((value, Some(end))) if self.now <= *end => Some(value.clone()),
            _ => None,
        }
    }

    fn set(&mut self, key: &[u8], value: &[u8], ttl: Option<i64>) {
        let end = ttl.map(|ttl| self.now + ttl);
        self.keys.insert(key.to_vec(), (value.to_vec(), end));
    }

    fn ttl_of(word: &[u8]) -> Option<i64> {
        std::str::from_utf8(word).unwrap().parse().ok().filter(|ttl: &i64| *ttl > 0)
    }

    fn error(text: &str) -> Value {
        redis::parse_redis_value(format!("-{}\r\n", text).as_bytes()).unwrap()
    }

    fn run(&mut self, words: &[Vec<u8>]) -> Value {
        let name = String::from_utf8(words[0].clone()).unwrap();
        match name.as_str() {
            "SET" if words.len() == 3 => {
                self.set(&words[1], &words[2], None);
                Value::Okay
            }
            "SET" => {
                assert_eq!(words.len(), 6);
                assert!(words[3].eq_ignore_ascii_case(b"NX"));
                assert!(words[4].eq_ignore_ascii_case(b"PX"));
                match FakeServer::ttl_of(&words[5]) {
                    None => FakeServer::error("ERR invalid expire time in 'set' command"),
                    Some(_) if self.get(&words[1]).is_some() => Value::Nil,
                    Some(ttl) => {
                        self.set(&words[1], &words[2], Some(ttl));
                        Value::Okay
                    }
                }
            }
            "GET" => match self.get(&words[1]) {
                Some(value) => Value::BulkString(value),
                None => Value::Nil,
            },
            "DEL" => Value::Int(if self.keys.remove(&words[1]).is_some() { 1 } else { 0 }),
            "SCRIPT" => {
                assert_eq!(words[1], b"LOAD");
                let code = String::from_utf8(words[2].clone()).unwrap();
                let hash = redis::Script::new(&code).get_hash().as_bytes().to_vec();
                self.scripts.insert(hash.clone(), code);
                Value::BulkString(hash)
            }
            "EVALSHA" => match self.scripts.get(&words[1]).cloned() {
                None => FakeServer::error("NOSCRIPT No matching script. Please use EVAL."),
                Some(code) => {
                    assert_eq!(words[2], b"1");
                    self.run_script(&code, &words[3], &words[4..])
                }
            },
            other => panic!("unexpected command {}", other),
        }
    }

    fn run_script(&mut self, code: &str, key: &[u8], args: &[Vec<u8>]) -> Value {
        let held = self.get(key).as_deref() == Some(args[0].as_slice());
        if code == LUA_UNLOCK || code == LUA_BLOCKING_UNLOCK {
            assert_eq!(args.len(), 1);
            if held {
                self.keys.remove(key);
            }
            Value::Int(if held { 1 } else { 0 })
        } else {
            assert_eq!(code, LUA_EXTEND);
            assert_eq!(args.len(), 2);
            match FakeServer::ttl_of(&args[1]) {
                _ if !held => Value::Int(0),
                None => FakeServer::error("ERR invalid expire time in 'set' command"),
                Some(ttl) => {
                    self.set(key, &args[0], Some(ttl));
                    Value::Int(1)
                }
            }
        }
    }

    fn send<T>(&mut self, ask: impl FnOnce(&mut FakeServer) -> RedisResult<T>) -> Exchange<T> {
        if !self.reachable {
            return Exchange::NoConnection(LockError::RedisFailedToEstablishConnection);
        }
        match ask(self) {
            Ok(reply) => Exchange::Reply(reply),
            Err(error) => Exchange::Failed(error),
        }
    }

    fn send_command<T: redis::FromRedisValue>(&mut self, cmd: &redis::Cmd) -> Exchange<T> {
        self.send(|server| cmd.query(server))
    }

    fn send_script(&mut self, request: &ScriptRequest) -> Exchange<i32> {
        self.send(|server| request.invocation().invoke(server))
    }
}

impl ConnectionLike for FakeServer {
    fn req_packed_command(&mut self, cmd: &[u8]) -> RedisResult<Value> {
        if let Some(error) = self.broken.take() {
            return Err(error);
        }
        let words: Vec<Vec<u8>> = match redis::parse_redis_value(cmd)? {
            Value::Array(words) => words
                .into_iter()
                .map(|word| match word {
                    Value::BulkString(bytes) => bytes,
                    other => panic!("unexpected word {:?}", other),
                })
                .collect(),
            other => panic!("unexpected request {:?}", other),
        };
        let reply = self.run(&words);
        self.requests.push(words);
        Ok(reply)
    }

    fn req_packed_commands(&mut self, _: &[u8], _: usize, _: usize) -> RedisResult<Vec<Value>> {
        unreachable!()
    }

    fn get_db(&self) -> i64 {
        0
    }

    fn check_connection(&mut self) -> bool {
        true
    }

    fn is_open(&self) -> bool {
        true
    }
}

fn create_clients() -> (Vec<FakeServer>, Vec<String>) {
    let servers = (0..3).map(|_| FakeServer::new()).collect();
    let addresses = (0..3).map(|i| format!("redis://localhost:{}", 6380 + i)).collect();
    (servers, addresses)
}

fn wait(servers: &mut [FakeServer], millis: u64) {
    for server in servers {
        server.now += millis as i64;
    }
}

/// One round: whether each server granted what it was asked for.
fn round(servers: &mut [FakeServer], rl: &LockManager, attempt: &Attempt) -> Vec<bool> {
    let known = rl.lock_inner().servers();
    let requests = attempt.requests();
    assert_eq!(requests.len(), servers.len());
    let mut locked = Vec::new();
    for (i, server) in servers.iter_mut().enumerate() {
        let verdict = match &requests[i] {
            Request::Lock(cmd) => known[i].lock_reply(server.send_command(cmd)),
            Request::Extend(script) => known[i].extend_reply(server.send_script(script)),
        };
        assert!(!verdict.reconnect);
        locked.push(verdict.granted);
    }
    locked
}

fn release(servers: &mut [FakeServer], rl: &LockManager, requests: &[ScriptRequest]) -> Vec<bool> {
    let known = rl.lock_inner().servers();
    assert_eq!(requests.len(), servers.len());
    let mut done = Vec::new();
    for (i, server) in servers.iter_mut().enumerate() {
        done.push(known[i].unlock_reply(server.send_script(&requests[i])).granted);
    }
    done
}

/// Carries an attempt through, with rounds that take a millisecond each.
fn carry_out(
    servers: &mut [FakeServer],
    rl: &LockManager,
    attempt: Result<Attempt, LockError>,
) -> Result<Lock, LockError> {
    let mut attempt = attempt?;
    loop {
        let locked = round(servers, rl, &attempt);
        wait(servers, 1);
        let rejection = match attempt.conclude(&locked, Duration::from_millis(1)) {
            Outcome::Finished(result) => return result,
            Outcome::Rejected(rejection) => rejection,
        };
        release(servers, rl, &rejection.release());
        match rejection.retry() {
            Retry::Again { delay, attempt: next } => {
                wait(servers, delay.as_millis() as u64);
                attempt = next;
            }
            Retry::GiveUp(error) => return Err(error),
        }
    }
}

fn lock<'a>(
    servers: &mut [FakeServer],
    rl: &LockManager,
    resource: impl ToLockResource<'a>,
    ttl: Duration,
) -> Result<Lock, LockError> {
    carry_out(servers, rl, rl.lock(resource, ttl))
}

fn extend(
    servers: &mut [FakeServer],
    rl: &LockManager,
    lock: &Lock,
    ttl: Duration,
) -> Result<Lock, LockError> {
    carry_out(servers, rl, rl.extend(lock, ttl))
}

fn unlock(servers: &mut [FakeServer], rl: &LockManager, lock: &Lock) -> Vec<bool> {
    release(servers, rl, &rl.unlock(lock))
}

fn acquire(
    servers: &mut [FakeServer],
    rl: &LockManager,
    resource: &Vec<u8>,
    ttl: Duration,
) -> Result<LockGuard, LockError> {
    loop {
        let result = lock(servers, rl, resource, ttl);
        if let Some(done) = rl.acquire(result) {
            return done;
        }
    }
}

fn query_redis_for_key_value(
    servers: &mut [FakeServer],
    rl: &LockManager,
    resource: &[u8],
) -> Result<Option<Vec<u8>>, LockError> {
    let known = rl.lock_inner().servers();
    let commands = rl.query(resource);
    assert_eq!(commands.len(), servers.len());
    let mut results = Vec::new();
    for (i, server) in servers.iter_mut().enumerate() {
        results.push(known[i].query_reply(server.send_command(&commands[i])));
    }
    rl.query_redis_for_key_value(results)
}

fn is_freed(
    servers: &mut [FakeServer],
    rl: &LockManager,
    lock: &Lock,
) -> Result<bool, LockError> {
    let found = query_redis_for_key_value(servers, rl, &lock.resource);
    rl.is_freed(lock, found)
}

fn is_normal<T: Sized + Send + Sync + Unpin>() {}

#[test]
fn test_is_normal() {
    is_normal::<LockManager>();
    is_normal::<LockError>();
    is_normal::<Lock>();
    is_normal::<LockGuard>();
}

#[test]
fn test_new_cluster_validates_seed_nodes() {
    assert!(LockManager::new_cluster(vec!["not-a-redis-uri"]).is_err());
}

#[test]
fn test_cluster_lock_lifecycle() {
    let manager =
        LockManager::new_cluster(vec!["redis://127.0.0.1:7000/", "redis://127.0.0.1:7001/"])
            .unwrap();
    assert_eq!(manager.lock_inner().servers().len(), 1);
    assert_eq!(manager.lock_inner().get_quorum(), 1);
    assert_eq!(manager.lock_inner().servers()[0].client.kind(), "Cluster");
    let mut servers = vec![FakeServer::new()];

    let held = lock(&mut servers, &manager, "cluster-lock-lifecycle", Duration::from_secs(10))
        .unwrap();
    assert_eq!(
        query_redis_for_key_value(&mut servers, &manager, &held.resource).unwrap(),
        Some(held.val.clone())
    );

    let extended = extend(&mut servers, &manager, &held, Duration::from_secs(10)).unwrap();
    assert!(extended.validity_time > 0);

    unlock(&mut servers, &manager, &extended);
    assert_eq!(query_redis_for_key_value(&mut servers, &manager, &held.resource).unwrap(), None);
}

#[test]
fn test_lock_get_unique_id() {
    let rl = LockManager::new(Vec::<String>::new());
    assert_eq!(rl.get_unique_lock_id().unwrap().len(), 20);
}

#[test]
fn test_lock_get_unique_id_uniqueness() {
    let rl = LockManager::new(Vec::<String>::new());

    let id1 = rl.get_unique_lock_id().unwrap();
    let id2 = rl.get_unique_lock_id().unwrap();

    assert_eq!(20, id1.len());
    assert_eq!(20, id2.len());
    assert_ne!(id1, id2);
}

#[test]
fn test_lock_valid_instance() {
    let (_servers, addresses) = create_clients();

    let rl = LockManager::new(addresses.clone());
    let l = rl.lock_inner();

    assert_eq!(3, l.servers().len());
    assert_eq!(2, l.get_quorum());
}

#[test]
fn test_lock_direct_unlock_fails() {
    let (mut servers, addresses) = create_clients();

    let rl = LockManager::new(addresses.clone());
    let key = rl.get_unique_lock_id().unwrap();

    let val = rl.get_unique_lock_id().unwrap();
    let server = &rl.lock_inner().servers()[0];
    let request = server.unlock(&key, &val);
    assert!(!server.unlock_reply(servers[0].send_script(&request)).granted);
}

#[test]
fn test_lock_direct_unlock_succeeds() {
    let (mut servers, addresses) = create_clients();

    let rl = LockManager::new(addresses.clone());
    let key = rl.get_unique_lock_id().unwrap();

    let val = rl.get_unique_lock_id().unwrap();
    redis::cmd("SET").arg(&*key).arg(&*val).exec(&mut servers[0]).unwrap();

    let server = &rl.lock_inner().servers()[0];
    let request = server.unlock(&key, &val);
    assert!(server.unlock_reply(servers[0].send_script(&request)).granted);
    assert_eq!(servers[0].get(&key), None);
}

#[test]
fn test_lock_direct_lock_succeeds() {
    let (mut servers, addresses) = create_clients();

    let rl = LockManager::new(addresses.clone());
    let key = rl.get_unique_lock_id().unwrap();
    let resource = key.to_lock_resource();

    let val = rl.get_unique_lock_id().unwrap();
    redis::cmd("DEL").arg(&*key).exec(&mut servers[0]).unwrap();
    let server = &rl.lock_inner().servers()[0];
    let cmd = server.lock(&resource, &val, 10_000);
    assert!(server.lock_reply(servers[0].send_command(&cmd)).granted);
    assert_eq!(servers[0].get(&key), Some(val));
}

#[test]
fn test_lock_unlock() {
    let (mut servers, addresses) = create_clients();

    let rl = LockManager::new(addresses.clone());
    let key = rl.get_unique_lock_id().unwrap();

    let val = rl.get_unique_lock_id().unwrap();
    let _: () = redis::cmd("SET").arg(&*key).arg(&*val).query(&mut servers[0]).unwrap();

    let held = Lock {
        lock_manager: rl.clone(),
        resource: key,
        val,
        validity_time: 0,
    };

    assert_eq!(unlock(&mut servers, &rl, &held), vec![true, false, false]);
}

#[test]
fn test_lock_lock() {
    let (mut servers, addresses) = create_clients();

    let rl = LockManager::new(addresses.clone());

    let key = rl.get_unique_lock_id().unwrap();
    match lock(&mut servers, &rl, &key, Duration::from_millis(10_000)) {
        Ok(lock) => {
            assert_eq!(key, lock.resource);
            assert_eq!(20, lock.val.len());
            assert!(lock.validity_time > 0, "validity time: {}", lock.validity_time);
            assert_eq!(lock.validity_time, 10_000 - 102 - 1);
        }
        Err(e) => panic!("{:?}", e),
    }
}

#[test]
fn test_lock_lock_unlock() {
    let (mut servers, addresses) = create_clients();

    let rl = LockManager::new(addresses.clone());
    let rl2 = LockManager::new(addresses.clone());

    let key = rl.get_unique_lock_id().unwrap();

    let held = lock(&mut servers, &rl, &key, Duration::from_millis(10_000)).unwrap();
    assert!(held.validity_time > 0, "validity time: {}", held.validity_time);

    if let Ok(_l) = lock(&mut servers, &rl2, &key, Duration::from_millis(10_000)) {
        panic!("Lock acquired, even though it should be locked")
    }

    unlock(&mut servers, &rl, &held);

    match lock(&mut servers, &rl2, &key, Duration::from_millis(10_000)) {
        Ok(l) => assert!(l.validity_time > 0),
        Err(_) => panic!("Lock couldn't be acquired"),
    }
}

#[test]
fn test_lock_lock_unlock_raii() {
    let (mut servers, addresses) = create_clients();

    let rl = LockManager::new(addresses.clone());
    let rl2 = LockManager::new(addresses.clone());
    let key = rl.get_unique_lock_id().unwrap();

    {
        let lock_guard = acquire(&mut servers, &rl, &key, Duration::from_millis(10_000)).unwrap();
        let held = &lock_guard.lock;
        assert!(held.validity_time > 0, "validity time: {}", held.validity_time);

        if let Ok(_l) = lock(&mut servers, &rl2, &key, Duration::from_millis(10_000)) {
            panic!("Lock acquired, even though it should be locked")
        }
        release(&mut servers, &rl, &lock_guard.release());
    }

    match lock(&mut servers, &rl2, &key, Duration::from_millis(10_000)) {
        Ok(l) => assert!(l.validity_time > 0),
        Err(_) => panic!("Lock couldn't be acquired"),
    }
}

#[test]
fn test_lock_raii_does_not_unlock_with_tokio_enabled() {
    let (mut servers, addresses) = create_clients();

    let rl1 = LockManager::new(addresses.clone());
    let rl2 = LockManager::new(addresses.clone());
    let key = rl1.get_unique_lock_id().unwrap();

    {
        let lock_guard = acquire(&mut servers, &rl1, &key, Duration::from_millis(10_000))
            .expect("LockManage rl1 should be able to acquire lock");
        let held = &lock_guard.lock;
        assert!(held.validity_time > 0, "validity time: {}", held.validity_time);
        assert_eq!(
            query_redis_for_key_value(&mut servers, &rl1, &key).unwrap(),
            Some(held.val.clone())
        );

        if let Ok(_l) = lock(&mut servers, &rl2, &key, Duration::from_millis(10_000)) {
            panic!("Lock acquired, even though it should be locked")
        }
    }

    if lock(&mut servers, &rl2, &key, Duration::from_millis(10_000)).is_ok() {
        panic!("Lock couldn't be acquired");
    }
}

#[test]
fn test_lock_extend_lock() {
    let (mut servers, addresses) = create_clients();

    let rl1 = LockManager::new(addresses.clone());
    let rl2 = LockManager::new(addresses.clone());

    let key = rl1.get_unique_lock_id().unwrap();

    let lock1 = acquire(&mut servers, &rl1, &key, Duration::from_millis(10_000)).unwrap();

    // Wait half a second before locking again
    wait(&mut servers, 500);

    extend(&mut servers, &rl1, &lock1.lock, Duration::from_millis(10_000)).unwrap();

    // Wait another half a second to see if lock2 can unlock
    wait(&mut servers, 500);

    // Assert lock2 can't access after extended lock
    match lock(&mut servers, &rl2, &key, Duration::from_millis(10_000)) {
        Ok(_) => panic!("Expected an error when extending the lock but didn't receive one"),
        Err(e) => match e {
            LockError::Unavailable => (),
            _ => panic!("Unexpected error when extending lock"),
        },
    }
}

#[test]
fn test_lock_extend_lock_releases() {
    let (mut servers, addresses) = create_clients();

    let rl1 = LockManager::new(addresses.clone());
    let rl2 = LockManager::new(addresses.clone());

    let key = rl1.get_unique_lock_id().unwrap();

    // Create 500ms lock and immediately extend 500ms
    let lock1 = acquire(&mut servers, &rl1, &key, Duration::from_millis(500)).unwrap();
    extend(&mut servers, &rl1, &lock1.lock, Duration::from_millis(500)).unwrap();

    // Wait one second for the lock to expire
    wait(&mut servers, 1000);

    // Assert rl2 can lock with the key now
    if lock(&mut servers, &rl2, &key, Duration::from_millis(10_000)).is_err() {
        panic!("Unexpected error when trying to claim free lock after extend expired")
    }

    // Also assert rl1 can't reuse lock1
    match extend(&mut servers, &rl1, &lock1.lock, Duration::from_millis(10_000)) {
        Ok(_) => panic!("Did not expect OK() when re-extending rl1"),
        Err(e) => match e {
            LockError::Unavailable => (),
            _ => panic!("Expected lockError::Unavailable when re-extending rl1"),
        },
    }
}

#[test]
fn test_lock_with_short_ttl_and_retries() {
    let (mut servers, addresses) = create_clients();

    let mut rl = LockManager::new(addresses.clone());
    // Set a high retry count to ensure retries happen
    rl.set_retry(10, Duration::from_millis(10)); // Retry 10 times with 10 milliseconds delay

    let key = rl.get_unique_lock_id().unwrap();

    // Use a very short TTL
    let ttl = Duration::from_millis(1);

    // Acquire lock
    let lock_result = lock(&mut servers, &rl, &key, ttl);

    // Check if the error returned is TtlExceeded
    match lock_result {
        Err(LockError::TtlExceeded) => (), // Test passes
        _ => panic!("Expected LockError::TtlExceeded, but got {:?}", lock_result),
    }
}

#[test]
fn test_lock_ttl_duration_conversion_error() {
    let (mut servers, addresses) = create_clients();
    let rl = LockManager::new(addresses.clone());
    let key = rl.get_unique_lock_id().unwrap();

    // Too big Duration, fails - technical limit is from_millis(u64::MAX)
    let ttl = Duration::from_secs(u64::MAX);
    if lock(&mut servers, &rl, &key, ttl).is_ok() {
        panic!("Expected LockError::TtlTooLarge");
    }
}

#[test]
fn test_lock_send_lock_manager() {
    let (mut servers, addresses) = create_clients();
    let rl = LockManager::new(addresses.clone());

    let held = lock(&mut servers, &rl, b"resource", Duration::from_millis(10_000)).unwrap();

    // Send the lock and entry through the channel
    let (tx, rx) = std::sync::mpsc::channel();
    tx.send(("some info", held, rl)).unwrap();

    // Retrieve from channel and use
    let (_entry, held, rl) = rx.recv().unwrap();
    assert_eq!(unlock(&mut servers, &rl, &held), vec![true, true, true]);
}

#[test]
fn test_lock_state_in_multiple_threads() {
    let (mut servers, addresses) = create_clients();
    let rl = LockManager::new(addresses.clone());

    let lock1 = lock(&mut servers, &rl, b"resource_1", Duration::from_millis(10_000)).unwrap();

    let lock1 = std::sync::Arc::new(lock1);
    // Send the lock and entry through the channel
    let (tx, rx) = std::sync::mpsc::channel();
    tx.send(("some info", lock1.clone(), rl.clone())).unwrap();

    // Retrieve from channel and use
    let (_entry, sent, sent_rl) = rx.recv().unwrap();
    unlock(&mut servers, &sent_rl, &sent);

    match is_freed(&mut servers, &rl, &lock1) {
        Ok(freed) => assert!(freed, "Lock should be freed after unlock"),
        Err(LockError::RedisKeyNotFound) => {}
        Err(e) => panic!("Unexpected error: {:?}", e),
    };

    let lock2 = lock(&mut servers, &rl, b"resource_2", Duration::from_millis(10_000)).unwrap();
    unlock(&mut servers, &rl, &lock2);

    match is_freed(&mut servers, &rl, &lock2) {
        Ok(freed) => assert!(freed, "Lock should be freed after unlock"),
        Err(LockError::RedisKeyNotFound) => {}
        Err(e) => panic!("Unexpected error: {:?}", e),
    };
}

#[test]
fn test_redis_value_matches_lock_value() {
    let (mut servers, addresses) = create_clients();
    let rl = LockManager::new(addresses.clone());

    let held = lock(&mut servers, &rl, b"resource_1", Duration::from_millis(10_000)).unwrap();

    // Ensure Redis key is correctly set and matches the lock value
    let redis_val: Option<Vec<u8>> =
        redis::cmd("GET").arg(&held.resource).query(&mut servers[0]).unwrap();

    assert_eq!(
        redis_val.as_deref(),
        Some(held.val.as_slice()),
        "Redis value should match lock value"
    );
}

#[test]
fn test_is_not_freed_after_lock() {
    let (mut servers, addresses) = create_clients();
    let rl = LockManager::new(addresses.clone());

    let held = lock(&mut servers, &rl, b"resource_1", Duration::from_millis(10_000)).unwrap();

    match is_freed(&mut servers, &rl, &held) {
        Ok(freed) => assert!(!freed, "Lock should not be freed after it is acquired"),
        Err(LockError::RedisKeyMismatch) => {
            panic!("Redis key mismatch should not occur for a valid lock")
        }
        Err(LockError::RedisKeyNotFound) => {
            panic!("Redis key not found should not occur for a valid lock")
        }
        Err(e) => panic!("Unexpected error: {:?}", e),
    };
}

#[test]
fn test_is_freed_after_manual_unlock() {
    let (mut servers, addresses) = create_clients();
    let rl = LockManager::new(addresses.clone());

    let held = lock(&mut servers, &rl, b"resource_2", Duration::from_millis(10_000)).unwrap();

    unlock(&mut servers, &rl, &held);

    match is_freed(&mut servers, &rl, &held) {
        Ok(freed) => assert!(freed, "Lock should be freed after unlock"),
        Err(LockError::RedisKeyNotFound) => {}
        Err(e) => panic!("Unexpected error: {:?}", e),
    };
}

#[test]
fn test_is_freed_when_key_missing_in_redis() {
    let (mut servers, addresses) = create_clients();
    let rl = LockManager::new(addresses.clone());

    let held = lock(&mut servers, &rl, b"resource_3", Duration::from_millis(10_000)).unwrap();

    // Manually delete the key in Redis to simulate it being missing
    redis::cmd("DEL").arg(&held.resource).query::<()>(&mut servers[0]).unwrap();

    match is_freed(&mut servers, &rl, &held) {
        Ok(freed) => {
            assert!(freed, "Lock should be marked as freed when key is missing in Redis")
        }
        Err(LockError::RedisKeyNotFound) => {}
        Err(e) => panic!("Unexpected error: {:?}", e),
    };
}

#[test]
fn test_is_freed_handles_redis_connection_failure() {
    let rl = LockManager::new(Vec::<String>::new()); // No Redis clients, simulate failure
    let mut servers: Vec<FakeServer> = Vec::new();

    let lock_result = lock(&mut servers, &rl, b"resource_4", Duration::from_millis(10_000));

    match lock_result {
        Ok(held) => {
            // Since there are no clients, any check with Redis will fail
            match is_freed(&mut servers, &rl, &held) {
                Ok(freed) => panic!(
                    "Expected failure due to Redis connection, but got Ok with freed status: {}",
                    freed
                ),
                Err(LockError::RedisConnectionFailed) => {}
                Err(e) => panic!("Unexpected error: {:?}", e),
            }
        }
        Err(LockError::Unavailable) => {}
        Err(e) => panic!("Unexpected error while acquiring lock: {:?}", e),
    }
}

#[test]
fn test_redis_connection_failed() {
    let rl = LockManager::new(Vec::<String>::new()); // No Redis clients, simulate failure
    let mut servers: Vec<FakeServer> = Vec::new();

    let lock_result = lock(&mut servers, &rl, b"resource_5", Duration::from_millis(10_000));

    match lock_result {
        Ok(held) => match is_freed(&mut servers, &rl, &held) {
            Err(LockError::RedisConnectionFailed) => {}
            Ok(_) => panic!("Expected RedisConnectionFailed, but got Ok"),
            Err(e) => panic!("Unexpected error: {:?}", e),
        },
        Err(LockError::Unavailable) => {}
        Err(e) => panic!("Unexpected error while acquiring lock: {:?}", e),
    }
    let held = Lock {
        resource: b"resource_5".to_vec(),
        val: vec![7; 20],
        validity_time: 0,
        lock_manager: rl.clone(),
    };
    assert!(matches!(
        is_freed(&mut servers, &rl, &held),
        Err(LockError::RedisConnectionFailed)
    ));
}

#[test]
fn test_redis_key_mismatch() {
    let (mut servers, addresses) = create_clients();
    let rl = LockManager::new(addresses.clone());

    let held = lock(&mut servers, &rl, b"resource_6", Duration::from_millis(10_000)).unwrap();

    // Set a different value for the same key to simulate a mismatch
    let different_value: Vec<u8> = vec![1, 2, 3, 4, 5]; // Different value
    redis::cmd("SET")
        .arg(&held.resource)
        .arg(different_value)
        .query::<()>(&mut servers[0])
        .unwrap();

    // Now check if is_freed identifies the mismatch correctly
    match is_freed(&mut servers, &rl, &held) {
        Err(LockError::RedisKeyMismatch) => {}
        Ok(_) => panic!("Expected RedisKeyMismatch, but got Ok"),
        Err(e) => panic!("Unexpected error: {:?}", e),
    }
}

#[test]
fn test_redis_key_not_found() {
    let (mut servers, addresses) = create_clients();
    let rl = LockManager::new(addresses.clone());

    let held = lock(&mut servers, &rl, b"resource_7", Duration::from_millis(10_000)).unwrap();

    // Manually delete the key in Redis to simulate it being missing
    redis::cmd("DEL").arg(&held.resource).query::<()>(&mut servers[0]).unwrap();

    match is_freed(&mut servers, &rl, &held) {
        Err(LockError::RedisKeyNotFound) => {}
        Ok(_) => panic!("Expected RedisKeyNotFound, but got Ok"),
        Err(e) => panic!("Unexpected error: {:?}", e),
    }
}

#[test]
fn test_lock_manager_from_clients_valid_instance() {
    let (_servers, addresses) = create_clients();

    let clients: Vec<redis::Client> =
        addresses.iter().map(|uri| redis::Client::open(uri.as_str()).unwrap()).collect();

    let lock_manager = LockManager::from_clients(clients);

    let l = lock_manager.lock_inner();
    assert_eq!(l.servers().len(), 3);
    assert_eq!(l.get_quorum(), 2);
}

#[test]
fn test_lock_manager_from_clients_partial_quorum() {
    let (_servers, addresses) = create_clients();
    let mut clients: Vec<redis::Client> =
        addresses.iter().map(|uri| redis::Client::open(uri.as_str()).unwrap()).collect();

    // Remove one client to simulate fewer nodes
    clients.pop();

    let lock_manager = LockManager::from_clients(clients);

    let l = lock_manager.lock_inner();
    assert_eq!(l.servers().len(), 2);
    assert_eq!(l.get_quorum(), 2); // 2/2+1 still rounds to 2
}

/// Stands in for a read of the system's source of random bytes.
fn random_read() -> Result<Vec<u8>, std::io::Error> {
    let mut bytes = vec![0u8; 20];
    rand::rng().fill_bytes(&mut bytes);
    Ok(bytes)
}

fn unique_lock_id(rl: &RedLock) -> Vec<u8> {
    rl.get_unique_lock_id(random_read()).unwrap()
}

fn blocking_release(servers: &mut [FakeServer], rl: &RedLock, requests: &[ScriptRequest]) -> Vec<bool> {
    assert_eq!(requests.len(), servers.len());
    let mut done = Vec::new();
    for (i, server) in servers.iter_mut().enumerate() {
        done.push(rl.unlock_instance_reply(&server.send_script(&requests[i])));
    }
    done
}

/// Carries an attempt through, with rounds that take a millisecond each.
fn blocking_lock<'a>(
    servers: &mut [FakeServer],
    rl: &'a RedLock,
    resource: &[u8],
    ttl: usize,
) -> Option<redlock::Lock<'a>> {
    let val = unique_lock_id(rl);
    let mut attempt = rl.lock(resource, ttl, val)?;
    loop {
        let commands = attempt.requests();
        assert_eq!(commands.len(), servers.len());
        let mut locked = Vec::new();
        for (i, server) in servers.iter_mut().enumerate() {
            locked.push(rl.lock_instance_reply(&server.send_command(&commands[i])));
        }
        wait(servers, 1);
        let rejection = match attempt.conclude(&locked, Duration::from_millis(1)) {
            redlock::Outcome::Acquired(lock) => return Some(lock),
            redlock::Outcome::Rejected(rejection) => rejection,
        };
        blocking_release(servers, rl, &rejection.release());
        let retry = rejection.checked_retry().expect("a pause to draw");
        wait(servers, retry.delay.as_millis() as u64);
        attempt = retry.attempt?;
    }
}

fn blocking_acquire<'a>(
    servers: &mut [FakeServer],
    rl: &'a RedLock,
    resource: &[u8],
    ttl: usize,
) -> RedLockGuard<'a> {
    loop {
        let result = blocking_lock(servers, rl, resource, ttl);
        if let Some(guard) = rl.acquire(result) {
            return guard;
        }
    }
}

#[test]
fn test_redlock_get_unique_id() {
    let rl = RedLock::new(Vec::<String>::new());
    assert_eq!(rl.get_unique_lock_id(random_read()).unwrap().len(), 20);
}

#[test]
fn test_redlock_get_unique_id_uniqueness() {
    let rl = RedLock::new(Vec::<String>::new());

    let id1 = rl.get_unique_lock_id(random_read()).unwrap();
    let id2 = rl.get_unique_lock_id(random_read()).unwrap();

    assert_eq!(20, id1.len());
    assert_eq!(20, id2.len());
    assert_ne!(id1, id2);
}

#[test]
fn test_redlock_valid_instance() {
    let (_servers, addresses) = create_clients();
    let rl = RedLock::new(addresses.clone());
    assert_eq!(3, rl.servers().len());
    assert_eq!(2, rl.quorum());
}

#[test]
fn test_redlock_direct_unlock_fails() {
    let (mut servers, addresses) = create_clients();
    let rl = RedLock::new(addresses.clone());
    let key = unique_lock_id(&rl);

    let val = unique_lock_id(&rl);
    let request = rl.unlock_instance(&key, &val);
    assert!(!rl.unlock_instance_reply(&servers[0].send_script(&request)));
}

#[test]
fn test_redlock_direct_unlock_succeeds() {
    let (mut servers, addresses) = create_clients();
    let rl = RedLock::new(addresses.clone());
    let key = unique_lock_id(&rl);

    let val = unique_lock_id(&rl);
    redis::cmd("SET").arg(&*key).arg(&*val).exec(&mut servers[0]).unwrap();

    let request = rl.unlock_instance(&key, &val);
    assert!(rl.unlock_instance_reply(&servers[0].send_script(&request)));
}

#[test]
fn test_redlock_direct_lock_succeeds() {
    let (mut servers, addresses) = create_clients();
    let rl = RedLock::new(addresses.clone());
    let key = unique_lock_id(&rl);

    let val = unique_lock_id(&rl);

    redis::cmd("DEL").arg(&*key).exec(&mut servers[0]).unwrap();
    let cmd = rl.lock_instance(&*key, &*val, 1000);
    assert!(rl.lock_instance_reply(&servers[0].send_command(&cmd)));
}

#[test]
fn test_redlock_unlock() {
    let (mut servers, addresses) = create_clients();
    let rl = RedLock::new(addresses.clone());
    let key = unique_lock_id(&rl);

    let val = unique_lock_id(&rl);
    let _: () = redis::cmd("SET").arg(&*key).arg(&*val).query(&mut servers[0]).unwrap();

    let held = redlock::Lock {
        lock_manager: &rl,
        resource: key,
        val,
        validity_time: 0,
    };
    let requests = rl.unlock(&held);
    assert_eq!(blocking_release(&mut servers, &rl, &requests), vec![true, false, false]);
}

#[test]
fn test_redlock_lock() {
    let (mut servers, addresses) = create_clients();
    let rl = RedLock::new(addresses.clone());

    let key = unique_lock_id(&rl);
    match blocking_lock(&mut servers, &rl, &key, 1000) {
        Some(lock) => {
            assert_eq!(key, lock.resource);
            assert_eq!(20, lock.val.len());
            assert!(lock.validity_time > 900);
            assert!(lock.validity_time > 900, "validity time: {}", lock.validity_time);
            assert_eq!(lock.validity_time, 1000 - 12 - 1);
        }
        None => panic!("Lock failed"),
    }
}

#[test]
fn test_redlock_lock_unlock() {
    let (mut servers, addresses) = create_clients();
    let rl = RedLock::new(addresses.clone());
    let rl2 = RedLock::new(addresses.clone());

    let key = unique_lock_id(&rl);

    let held = blocking_lock(&mut servers, &rl, &key, 1000).unwrap();
    assert!(held.validity_time > 900, "validity time: {}", held.validity_time);

    if let Some(_l) = blocking_lock(&mut servers, &rl2, &key, 1000) {
        panic!("Lock acquired, even though it should be locked")
    }

    let requests = rl.unlock(&held);
    blocking_release(&mut servers, &rl, &requests);

    match blocking_lock(&mut servers, &rl2, &key, 1000) {
        Some(l) => assert!(l.validity_time > 900),
        None => panic!("Lock couldn't be acquired"),
    }
}

#[test]
fn test_redlock_lock_unlock_raii() {
    let (mut servers, addresses) = create_clients();
    let rl = RedLock::new(addresses.clone());
    let rl2 = RedLock::new(addresses.clone());

    let key = unique_lock_id(&rl);
    {
        let lock_guard = blocking_acquire(&mut servers, &rl, &key, 1000);
        let held = &lock_guard.lock;
        assert!(held.validity_time > 900, "validity time: {}", held.validity_time);

        if let Some(_l) = blocking_lock(&mut servers, &rl2, &key, 1000) {
            panic!("Lock acquired, even though it should be locked")
        }
        blocking_release(&mut servers, &rl, &lock_guard.release());
    }

    match blocking_lock(&mut servers, &rl2, &key, 1000) {
        Some(l) => assert!(l.validity_time > 900),
        None => panic!("Lock couldn't be acquired"),
    }
}

fn requests_named(server: &FakeServer, name: &str) -> usize {
    server.requests.iter().filter(|words| words[0] == name.as_bytes()).count()
}

#[test]
fn a_lock_is_sent_to_every_server() {
    let (mut servers, addresses) = create_clients();
    let rl = LockManager::new(addresses);
    let held = lock(&mut servers, &rl, "my_mutex", Duration::from_millis(12_345)).unwrap();
    for server in &servers {
        assert_eq!(
            server.requests,
            vec![vec![
                b"SET".to_vec(),
                b"my_mutex".to_vec(),
                held.val.clone(),
                b"NX".to_vec(),
                b"PX".to_vec(),
                b"12345".to_vec(),
            ]]
        );
        assert_eq!(server.get(b"my_mutex"), Some(held.val.clone()));
    }
}

#[test]
fn an_extension_is_a_script_run() {
    let (mut servers, addresses) = create_clients();
    let rl = LockManager::new(addresses);
    let held = lock(&mut servers, &rl, "my_mutex", Duration::from_millis(1000)).unwrap();
    servers[0].requests.clear();
    extend(&mut servers, &rl, &held, Duration::from_millis(2000)).unwrap();
    let hash = redis::Script::new(LUA_EXTEND).get_hash().as_bytes().to_vec();
    let run = vec![
        b"EVALSHA".to_vec(),
        hash,
        b"1".to_vec(),
        b"my_mutex".to_vec(),
        held.val.clone(),
        b"2000".to_vec(),
    ];
    let load = vec![b"SCRIPT".to_vec(), b"LOAD".to_vec(), LUA_EXTEND.as_bytes().to_vec()];
    assert_eq!(servers[0].requests, vec![run.clone(), load, run]);
}

#[test]
fn an_extended_lock_is_renewed_and_not_prolonged() {
    let (mut servers, addresses) = create_clients();
    let rl = LockManager::new(addresses.clone());
    let rl2 = LockManager::new(addresses);
    let start = servers[0].now;
    let held = lock(&mut servers, &rl, "my_mutex", Duration::from_millis(1000)).unwrap();
    wait(&mut servers, 499);
    assert_eq!(servers[0].now, start + 500);
    let extended = extend(&mut servers, &rl, &held, Duration::from_millis(1000)).unwrap();
    assert_eq!(extended.resource, held.resource);
    assert_eq!(extended.val, held.val);
    assert_eq!(extended.validity_time, 987);
    for server in &mut servers {
        server.now = start + 1500;
        assert_eq!(server.get(b"my_mutex"), Some(held.val.clone()));
        server.now = start + 1501;
        assert_eq!(server.get(b"my_mutex"), None);
    }
    assert!(lock(&mut servers, &rl2, "my_mutex", Duration::from_millis(1000)).is_ok());
}

#[test]
fn a_majority_is_enough() {
    let (mut servers, addresses) = create_clients();
    let rl = LockManager::new(addresses.clone());
    servers[1].reachable = false;
    let held = lock(&mut servers, &rl, "my_mutex", Duration::from_millis(1000)).unwrap();
    assert_eq!(held.validity_time, 987);
    let extended = extend(&mut servers, &rl, &held, Duration::from_millis(1000)).unwrap();
    assert_eq!(unlock(&mut servers, &rl, &extended), vec![true, false, true]);

    let blocking = RedLock::new(addresses);
    assert_eq!(blocking_lock(&mut servers, &blocking, b"x", 1000).unwrap().validity_time, 987);
}

#[test]
fn a_minority_is_not_enough_and_leaves_nothing_behind() {
    let (mut servers, addresses) = create_clients();
    let rl = LockManager::new(addresses.clone());
    servers[0].reachable = false;
    servers[2].reachable = false;
    assert!(matches!(
        lock(&mut servers, &rl, "my_mutex", Duration::from_millis(1000)),
        Err(LockError::Unavailable)
    ));
    assert_eq!(requests_named(&servers[1], "SET"), 3);
    assert_eq!(servers[1].get(b"my_mutex"), None);

    let blocking = RedLock::new(addresses);
    assert!(blocking_lock(&mut servers, &blocking, b"my_mutex", 1000).is_none());
    assert_eq!(requests_named(&servers[1], "SET"), 6);
    assert_eq!(servers[1].get(b"my_mutex"), None);
}

#[test]
fn nobody_else_gets_a_lock_while_it_is_valid() {
    let (mut servers, addresses) = create_clients();
    let rl = LockManager::new(addresses.clone());
    let mut rl2 = LockManager::new(addresses.clone());
    rl2.set_retry(1, Duration::from_millis(1));
    let mut blocking = RedLock::new(addresses);
    blocking.set_retry(1, 1);
    servers[2].reachable = false;
    let held = lock(&mut servers, &rl, "my_mutex", Duration::from_millis(1000)).unwrap();
    servers[2].reachable = true;
    let stranger = Lock { val: vec![9; 20], ..held_copy(&held) };
    for _ in 0..held.validity_time / 5 {
        wait(&mut servers, 2);
        assert!(matches!(
            lock(&mut servers, &rl2, "my_mutex", Duration::from_millis(1000)),
            Err(LockError::Unavailable)
        ));
        assert!(matches!(
            extend(&mut servers, &rl2, &stranger, Duration::from_millis(1000)),
            Err(LockError::Unavailable)
        ));
        assert!(blocking_lock(&mut servers, &blocking, b"my_mutex", 1000).is_none());
        assert_eq!(unlock(&mut servers, &rl2, &stranger), vec![false, false, false]);
    }
    assert_eq!(servers[0].get(b"my_mutex"), Some(held.val.clone()));
    assert_eq!(servers[1].get(b"my_mutex"), Some(held.val.clone()));
    wait(&mut servers, 1000);
    assert!(lock(&mut servers, &rl2, "my_mutex", Duration::from_millis(1000)).is_ok());
}

fn held_copy(lock: &Lock) -> Lock {
    Lock {
        resource: lock.resource.clone(),
        val: lock.val.clone(),
        validity_time: lock.validity_time,
        lock_manager: lock.lock_manager.clone(),
    }
}

#[test]
fn locks_on_other_resources_are_independent() {
    let (mut servers, addresses) = create_clients();
    let rl = LockManager::new(addresses);
    let a = lock(&mut servers, &rl, "a", Duration::from_millis(1000)).unwrap();
    let b = lock(&mut servers, &rl, "b", Duration::from_millis(1000)).unwrap();
    assert_ne!(a.val, b.val);
    unlock(&mut servers, &rl, &a);
    assert!(matches!(is_freed(&mut servers, &rl, &b), Ok(false)));
}

#[test]
fn a_lost_lock_is_not_extended() {
    let (mut servers, addresses) = create_clients();
    let rl = LockManager::new(addresses);
    let held = lock(&mut servers, &rl, "my_mutex", Duration::from_millis(500)).unwrap();
    wait(&mut servers, 501);
    assert!(matches!(
        extend(&mut servers, &rl, &held, Duration::from_millis(500)),
        Err(LockError::Unavailable)
    ));
    assert_eq!(servers[0].get(b"my_mutex"), None);
}

#[test]
fn an_attempt_takes_as_many_rounds_as_the_retry_count() {
    let (mut servers, addresses) = create_clients();
    let holder = LockManager::new(addresses.clone());
    lock(&mut servers, &holder, "my_mutex", Duration::from_secs(1000)).unwrap();
    for (count, expected) in vec![(0, 1), (1, 1), (2, 2), (5, 5)] {
        for server in &mut servers {
            server.requests.clear();
        }
        let mut rl = LockManager::new(addresses.clone());
        rl.set_retry(count, Duration::from_millis(10));
        assert!(matches!(
            lock(&mut servers, &rl, "my_mutex", Duration::from_millis(1000)),
            Err(LockError::Unavailable)
        ));
        assert_eq!(requests_named(&servers[0], "SET"), expected);
    }
    for (count, expected) in vec![(0, 0), (1, 1), (2, 2), (5, 5)] {
        for server in &mut servers {
            server.requests.clear();
        }
        let mut rl = RedLock::new(addresses.clone());
        rl.set_retry(count, 10);
        assert!(blocking_lock(&mut servers, &rl, b"my_mutex", 1000).is_none());
        assert_eq!(requests_named(&servers[0], "SET"), expected);
    }
}

fn rejected(rl: &LockManager) -> rslock::attempt::Rejection {
    let attempt = rl.lock("my_mutex", Duration::from_millis(1000)).unwrap();
    match attempt.conclude(&vec![false, false, false], Duration::from_millis(0)) {
        Outcome::Rejected(rejection) => rejection,
        Outcome::Finished(_) => panic!("no server granted the lock"),
    }
}

#[test]
fn pauses_are_random_and_shorter_than_the_retry_delay() {
    let (_, addresses) = create_clients();
    let mut rl = LockManager::new(addresses.clone());
    rl.set_retry(3, Duration::from_millis(10));
    let mut seen = [false; 10];
    for _ in 0..1000 {
        match rejected(&rl).retry() {
            Retry::Again { delay, .. } => seen[delay.as_millis() as usize] = true,
            Retry::GiveUp(error) => panic!("{:?}", error),
        }
    }
    assert_eq!(seen, [true; 10]);

    let mut blocking = RedLock::new(addresses);
    blocking.set_retry(1, 10);
    let mut seen = [false; 10];
    for _ in 0..1000 {
        let attempt = blocking.lock(b"my_mutex", 1000, vec![1; 20]).unwrap();
        match attempt.conclude(&vec![true, false, false], Duration::from_millis(988)) {
            redlock::Outcome::Rejected(rejection) => {
                let retry = rejection.retry();
                assert!(retry.attempt.is_none());
                seen[retry.delay.as_millis() as usize] = true;
            }
            redlock::Outcome::Acquired(_) => panic!("no quorum"),
        }
    }
    assert_eq!(seen, [true; 10]);
}

#[test]
fn a_pause_that_is_handed_in_is_kept() {
    let (_, addresses) = create_clients();
    let rl = LockManager::new(addresses.clone());
    match rejected(&rl).retry_after(123) {
        Retry::Again { delay, .. } => assert_eq!(delay, Duration::from_millis(123)),
        Retry::GiveUp(error) => panic!("{:?}", error),
    }
    let blocking = RedLock::new(addresses);
    let attempt = blocking.lock(b"my_mutex", 1000, vec![1; 20]).unwrap();
    match attempt.conclude(&vec![true, true, true], Duration::from_millis(988)) {
        redlock::Outcome::Rejected(rejection) => {
            let retry = rejection.retry_after(45);
            assert_eq!(retry.delay, Duration::from_millis(45));
            assert!(retry.attempt.is_some());
        }
        redlock::Outcome::Acquired(_) => panic!("nothing is left of the time to live"),
    }
}

#[test]
fn a_retry_delay_without_a_millisecond_is_no_pause() {
    let (_, addresses) = create_clients();
    let mut rl = LockManager::new(addresses);
    for delay in vec![Duration::ZERO, Duration::from_micros(999)] {
        rl.set_retry(3, delay);
        match rejected(&rl).retry() {
            Retry::Again { delay, .. } => assert_eq!(delay, Duration::ZERO),
            Retry::GiveUp(error) => panic!("{:?}", error),
        }
        rl.set_retry(1, delay);
        assert!(matches!(
            rejected(&rl).retry(),
            Retry::GiveUp(LockError::Unavailable)
        ));
    }
}

#[test]
fn rounds_without_a_pause_end_too() {
    let mut none = LockManager::new(Vec::<String>::new());
    none.set_retry(2, Duration::ZERO);
    let first = none.exec_or_retry("r", b"v", 10_000, Operation::Lock);
    assert!(matches!(
        carry_out(&mut [], &none, Ok(first)),
        Err(LockError::Unavailable)
    ));

    let (mut servers, addresses) = create_clients();
    let holder = LockManager::new(addresses.clone());
    lock(&mut servers, &holder, "r", Duration::from_millis(10_000)).unwrap();
    let mut rl = LockManager::new(addresses);
    rl.set_retry(2, Duration::ZERO);
    let start = servers[0].now;
    let first = rl.exec_or_retry("r", b"v", 10_000, Operation::Lock);
    assert!(matches!(
        carry_out(&mut servers, &rl, Ok(first)),
        Err(LockError::Unavailable)
    ));
    // Two rounds of a millisecond each
    assert_eq!(servers[0].now, start + 2);
    assert_eq!(requests_named(&servers[0], "SET"), 3);
}

#[test]
fn a_blocking_manager_draws_no_pause_from_an_empty_range() {
    let (_, addresses) = create_clients();
    let mut blocking = RedLock::new(addresses);
    blocking.set_retry(1, 0);
    let attempt = blocking.lock(b"my_mutex", 1000, vec![1; 20]).unwrap();
    match attempt.conclude(&vec![false, false, false], Duration::from_millis(0)) {
        redlock::Outcome::Rejected(rejection) => assert!(rejection.checked_retry().is_none()),
        redlock::Outcome::Acquired(_) => panic!("no server granted the lock"),
    }
}

#[test]
fn a_retry_delay_that_cannot_be_counted_is_an_error() {
    let (_, addresses) = create_clients();
    let mut rl = LockManager::new(addresses);
    rl.set_retry(3, Duration::from_secs(u64::MAX));
    assert!(matches!(rejected(&rl).retry(), Retry::GiveUp(LockError::TtlTooLarge)));
    rl.set_retry(1, Duration::from_secs(u64::MAX));
    assert!(matches!(rejected(&rl).retry(), Retry::GiveUp(LockError::Unavailable)));
}

#[test]
fn a_round_that_takes_too_long_is_an_error() {
    let (_, addresses) = create_clients();
    let rl = LockManager::new(addresses.clone());
    for (elapsed, validity) in vec![(0, 988), (1, 987), (987, 1)] {
        let attempt = rl.lock("my_mutex", Duration::from_millis(1000)).unwrap();
        match attempt.conclude(&vec![true, true, false], Duration::from_millis(elapsed)) {
            Outcome::Finished(Ok(lock)) => assert_eq!(lock.validity_time, validity),
            _ => panic!("two of three servers granted the lock in time"),
        }
    }
    for elapsed in vec![988, 989, 1_000_000, u64::MAX] {
        for locked in vec![vec![true, true, true], vec![false, false, false]] {
            let attempt = rl.lock("my_mutex", Duration::from_millis(1000)).unwrap();
            assert!(matches!(
                attempt.conclude(&locked, Duration::from_millis(elapsed)),
                Outcome::Finished(Err(LockError::TtlExceeded))
            ));
        }
    }
}

#[test]
fn a_blocking_round_that_takes_too_long_fails_like_any_other() {
    let (_, addresses) = create_clients();
    let blocking = RedLock::new(addresses);
    for (ttl, elapsed) in vec![(1000, 988), (1000, 989), (1000, u64::MAX), (2, 0), (1, 0), (0, 0)] {
        let attempt = blocking.lock(b"my_mutex", ttl, vec![1; 20]).unwrap();
        match attempt.conclude(&vec![true, true, true], Duration::from_millis(elapsed)) {
            redlock::Outcome::Rejected(rejection) => {
                assert_eq!(rejection.release().len(), 3);
                assert!(rejection.retry().attempt.is_some());
            }
            redlock::Outcome::Acquired(_) => panic!("nothing is left of the time to live"),
        }
    }
    let attempt = blocking.lock(b"my_mutex", 1000, vec![1; 20]).unwrap();
    match attempt.conclude(&vec![true, true, true], Duration::from_millis(987)) {
        redlock::Outcome::Acquired(lock) => assert_eq!(lock.validity_time, 1),
        redlock::Outcome::Rejected(_) => panic!("a millisecond is left of the time to live"),
    }
}

#[test]
fn a_tiny_time_to_live_gives_no_blocking_lock() {
    let none = RedLock::new(Vec::<String>::new());
    assert!(blocking_lock(&mut [], &none, b"r", 1).is_none());

    let (mut servers, addresses) = create_clients();
    let rl = RedLock::new(addresses);
    for ttl in 1..=2 {
        assert!(blocking_lock(&mut servers, &rl, b"r", ttl).is_none());
        assert_eq!(servers[0].get(b"r"), None);
    }
    assert_eq!(requests_named(&servers[0], "SET"), 6);
}

#[test]
fn a_time_to_live_of_two_milliseconds_is_always_exceeded() {
    let (mut servers, addresses) = create_clients();
    let rl = LockManager::new(addresses);
    for ttl in 1..=2 {
        assert!(matches!(
            lock(&mut servers, &rl, "my_mutex", Duration::from_millis(ttl)),
            Err(LockError::TtlExceeded)
        ));
        wait(&mut servers, 10);
    }
}

#[test]
fn no_servers_no_lock() {
    let rl = LockManager::new(Vec::<String>::new());
    assert_eq!(rl.lock_inner().servers().len(), 0);
    assert_eq!(rl.lock_inner().get_quorum(), 1);
    assert!(matches!(
        lock(&mut [], &rl, "my_mutex", Duration::from_millis(1000)),
        Err(LockError::Unavailable)
    ));
    let blocking = RedLock::new(Vec::<String>::new());
    assert_eq!(blocking.quorum(), 1);
    assert!(blocking_lock(&mut [], &blocking, b"my_mutex", 1000).is_none());
}

#[test]
fn a_time_to_live_that_cannot_be_counted_is_an_error() {
    let (_, addresses) = create_clients();
    let rl = LockManager::new(addresses);
    let longest = Duration::from_millis(usize::MAX as u64);
    assert!(rl.lock("my_mutex", longest).is_ok());
    let too_long = longest + Duration::from_millis(1);
    assert!(matches!(rl.lock("my_mutex", too_long), Err(LockError::TtlTooLarge)));
    let held = Lock {
        resource: b"my_mutex".to_vec(),
        val: vec![1; 20],
        validity_time: 1,
        lock_manager: rl.clone(),
    };
    assert!(rl.extend(&held, longest).is_ok());
    assert!(matches!(rl.extend(&held, too_long), Err(LockError::TtlTooLarge)));
    assert!(matches!(
        rl.acquire_no_guard(Err(LockError::TtlTooLarge)),
        Some(Err(LockError::TtlTooLarge))
    ));
    assert!(matches!(
        rl.acquire(Err(LockError::TtlTooLarge)),
        Some(Err(LockError::TtlTooLarge))
    ));
    assert!(rl.acquire_no_guard(Err(LockError::Unavailable)).is_none());
    assert!(rl.acquire(Err(LockError::TtlExceeded)).is_none());
    assert_eq!(rl.acquire_no_guard(Ok(held)).unwrap().unwrap().val, vec![1; 20]);
}

#[test]
fn the_first_answer_counts() {
    let (mut servers, addresses) = create_clients();
    let rl = LockManager::new(addresses);
    servers[1].set(b"k", b"one", None);
    servers[2].set(b"k", b"two", None);
    servers[0].broken = Some(RedisError::from((ErrorKind::Client, "broken")));
    assert_eq!(
        query_redis_for_key_value(&mut servers, &rl, b"k").unwrap(),
        Some(b"one".to_vec())
    );
    // A server without a connection is passed over
    servers[0].reachable = false;
    assert_eq!(
        query_redis_for_key_value(&mut servers, &rl, b"k").unwrap(),
        Some(b"one".to_vec())
    );
    // That there is no such key is an answer
    servers[0].reachable = true;
    assert_eq!(query_redis_for_key_value(&mut servers, &rl, b"k").unwrap(), None);
    for server in &mut servers {
        server.broken = Some(RedisError::from((ErrorKind::Client, "broken")));
    }
    assert!(matches!(
        query_redis_for_key_value(&mut servers, &rl, b"k"),
        Err(LockError::RedisConnectionFailed)
    ));
    for server in &mut servers {
        server.reachable = false;
    }
    assert!(matches!(
        query_redis_for_key_value(&mut servers, &rl, b"k"),
        Err(LockError::RedisConnectionFailed)
    ));
}

#[test]
fn a_lock_is_not_freed_because_a_server_is_down() {
    let (mut servers, addresses) = create_clients();
    let rl = LockManager::new(addresses);
    let held = lock(&mut servers, &rl, "my_mutex", Duration::from_millis(1000)).unwrap();
    servers[0].reachable = false;
    assert!(matches!(is_freed(&mut servers, &rl, &held), Ok(false)));
    servers[1].reachable = false;
    servers[2].reachable = false;
    assert!(matches!(
        is_freed(&mut servers, &rl, &held),
        Err(LockError::RedisConnectionFailed)
    ));
}

#[test]
fn a_query_without_a_reply_is_no_answer() {
    let (_, addresses) = create_clients();
    let rl = LockManager::new(addresses);
    let server = &rl.lock_inner().servers()[0];
    assert!(matches!(
        server.query_reply(Exchange::NoConnection(LockError::MutexPoisoned)),
        Err(LockError::MutexPoisoned)
    ));
    let failed = RedisError::from((ErrorKind::Client, "misuse"));
    assert!(matches!(
        server.query_reply(Exchange::Failed(failed.clone())),
        Err(LockError::Redis(error)) if error == failed
    ));
    assert!(matches!(server.query_reply(Exchange::Reply(None)), Ok(None)));
    assert_eq!(server.query_reply(Exchange::Reply(Some(vec![1]))).unwrap(), Some(vec![1]));
}

#[test]
fn a_failed_exchange_grants_nothing_and_may_break_the_connection() {
    let (_, addresses) = create_clients();
    let rl = LockManager::new(addresses.clone());
    let server = &rl.lock_inner().servers()[0];
    let cases = vec![
        (RedisError::from((ErrorKind::Parse, "garbage")), true),
        (RedisError::from((ErrorKind::AuthenticationFailed, "who")), true),
        (RedisError::from((ErrorKind::Client, "misuse")), false),
        (RedisError::from(std::io::Error::from(std::io::ErrorKind::BrokenPipe)), true),
        (RedisError::from(std::io::Error::from(std::io::ErrorKind::PermissionDenied)), false),
    ];
    for (error, reconnect) in cases {
        assert_eq!(server.recover(&error), reconnect);
        let verdict = server.lock_reply(Exchange::Failed(error.clone()));
        assert!(!verdict.granted);
        assert_eq!(verdict.reconnect, reconnect);
        let verdict = server.extend_reply(Exchange::Failed(error.clone()));
        assert!(!verdict.granted);
        assert_eq!(verdict.reconnect, reconnect);
        let verdict = server.unlock_reply(Exchange::Failed(error));
        assert!(!verdict.granted);
        assert_eq!(verdict.reconnect, reconnect);
    }
    let verdict = server.lock_reply(Exchange::NoConnection(LockError::Unavailable));
    assert!(!verdict.granted && !verdict.reconnect);

    let blocking = RedLock::new(addresses);
    assert!(!blocking.lock_instance_reply(&Exchange::NoConnection(LockError::Unavailable)));
    assert!(!blocking.unlock_instance_reply(&Exchange::NoConnection(LockError::Unavailable)));
    let failed = RedisError::from((ErrorKind::Parse, "garbage"));
    assert!(!blocking.lock_instance_reply(&Exchange::Failed(failed.clone())));
    assert!(!blocking.unlock_instance_reply(&Exchange::Failed(failed)));
}

#[test]
fn only_ok_and_one_grant() {
    let (_, addresses) = create_clients();
    let rl = LockManager::new(addresses.clone());
    let blocking = RedLock::new(addresses);
    let server = &rl.lock_inner().servers()[0];
    assert!(server.lock_reply(Exchange::Reply(Value::Okay)).granted);
    assert!(blocking.lock_instance_reply(&Exchange::Reply(Value::Okay)));
    for value in vec![
        Value::Nil,
        Value::Int(1),
        Value::SimpleString("OK".to_string()),
        Value::BulkString(b"OK".to_vec()),
        Value::Array(vec![Value::Okay]),
    ] {
        assert!(!blocking.lock_instance_reply(&Exchange::Reply(value.clone())));
        assert!(!server.lock_reply(Exchange::Reply(value)).granted);
    }
    for (number, granted) in vec![(1, true), (0, false), (2, false), (-1, false)] {
        assert_eq!(server.extend_reply(Exchange::Reply(number)).granted, granted);
        assert_eq!(server.unlock_reply(Exchange::Reply(number)).granted, granted);
        assert_eq!(blocking.unlock_instance_reply(&Exchange::Reply(number)), granted);
    }
}

#[test]
fn a_connection_is_made_once_and_made_anew() {
    let (_, addresses) = create_clients();
    let rl = LockManager::new(addresses);
    let server = &rl.lock_inner().servers()[0];
    let refused = || RedisError::from(std::io::Error::from(std::io::ErrorKind::ConnectionRefused));

    let mut kept: Option<u32> = None;
    assert_eq!(server.get_connection(&kept), None);
    assert!(matches!(server.connected(&mut kept, Err(refused())), Err(LockError::Redis(_))));
    assert_eq!(kept, None);
    assert_eq!(server.connected(&mut kept, Ok(1)).unwrap(), 1);
    assert_eq!(kept, Some(1));
    assert_eq!(server.get_connection(&kept), Some(1));
    assert!(matches!(server.reconnected(&mut kept, Err(refused())), Err(LockError::Redis(_))));
    assert_eq!(kept, Some(1));
    assert!(server.reconnected(&mut kept, Ok(2)).is_ok());
    assert_eq!(kept, Some(2));
}

#[test]
fn a_lock_in_use_is_prolonged_half_a_second_early() {
    let (mut servers, addresses) = create_clients();
    let rl = LockManager::new(addresses);
    let ttl = Duration::from_millis(2000);
    let held = lock(&mut servers, &rl, "my_mutex", ttl).unwrap();
    let val = held.val.clone();
    assert_eq!(held.validity_time, 1977);
    let using = rl.using(Ok(held), ttl).unwrap();
    assert_eq!(using.threshold(), Duration::from_millis(1477));
    wait(&mut servers, 1477);
    let prolonged = carry_out(&mut servers, &rl, using.timed_out());
    let using = using.extended(prolonged).unwrap();
    assert_eq!(using.threshold(), Duration::from_millis(1477));
    wait(&mut servers, 1477);
    assert_eq!(servers[0].get(b"my_mutex"), Some(val));
    assert_eq!(release(&mut servers, &rl, &using.finished()), vec![true, true, true]);
    assert_eq!(servers[0].get(b"my_mutex"), None);
}

#[test]
fn a_lock_that_cannot_be_prolonged_ends_its_use() {
    let (mut servers, addresses) = create_clients();
    let rl = LockManager::new(addresses);
    let ttl = Duration::from_millis(2000);
    assert!(matches!(
        rl.using(Err(LockError::TtlTooLarge), ttl),
        Err(LockError::TtlTooLarge)
    ));
    let held = lock(&mut servers, &rl, "my_mutex", ttl).unwrap();
    let using = rl.using(Ok(held), ttl).unwrap();
    wait(&mut servers, 3000);
    let prolonged = carry_out(&mut servers, &rl, using.timed_out());
    assert!(matches!(using.extended(prolonged), Err(LockError::Unavailable)));
}

#[test]
fn the_managers_know_the_servers_that_the_strings_name() {
    let (_, addresses) = create_clients();
    let blocking = RedLock::open(addresses.clone()).unwrap();
    for (i, client) in blocking.servers().iter().enumerate() {
        assert_eq!(
            client.get_connection_info().addr().to_string(),
            format!("localhost:{}", 6380 + i)
        );
    }
    let copy = blocking.clone();
    assert_eq!(copy.servers().len(), 3);
    assert_eq!(copy.quorum(), 2);

    let rl = LockManager::open(addresses).unwrap();
    for (i, server) in rl.lock_inner().servers().iter().enumerate() {
        assert_eq!(server.client.kind(), "Standalone");
        match &server.client {
            rslock::connection::RedisClient::Standalone(client) => assert_eq!(
                client.get_connection_info().addr().to_string(),
                format!("localhost:{}", 6380 + i)
            ),
            rslock::connection::RedisClient::Cluster(_) => panic!("no cluster was named"),
        }
    }
}

#[test]
fn the_first_string_that_is_no_connection_string_is_reported() {
    let uris = vec!["redis://127.0.0.1:6379", "no scheme", "http://127.0.0.1"];
    let expected = redis::Client::open("no scheme").unwrap_err();
    match LockManager::open(uris.clone()) {
        Err(LockError::Redis(error)) => assert_eq!(error, expected),
        _ => panic!("the second string is no connection string"),
    }
    match RedLock::open(uris) {
        Err(error) => assert_eq!(error, expected),
        Ok(_) => panic!("the second string is no connection string"),
    }
}

#[test]
fn the_value_of_a_blocking_lock_needs_twenty_bytes() {
    let rl = RedLock::new(Vec::<String>::new());
    let bytes: Vec<u8> = (0..20).collect();
    assert_eq!(rl.get_unique_lock_id(Ok(bytes.clone())).unwrap(), bytes);
    let more: Vec<u8> = (0..100).collect();
    assert_eq!(rl.get_unique_lock_id(Ok(more)).unwrap(), bytes);
    for short in 0..20 {
        assert!(matches!(
            rl.get_unique_lock_id(Ok(vec![1; short])),
            Err(LockIdError::NotEnough)
        ));
    }
    let error = std::io::Error::from(std::io::ErrorKind::NotFound);
    assert!(matches!(
        rl.get_unique_lock_id(Err(error)),
        Err(LockIdError::Read(error)) if error.kind() == std::io::ErrorKind::NotFound
    ));
    assert_eq!(LockIdError::short_read_message(), "Can't read enough random bytes");
}

#[test]
fn a_blocking_lock_is_sent_in_lower_case() {
    let (mut servers, addresses) = create_clients();
    let rl = RedLock::new(addresses);
    let held = blocking_lock(&mut servers, &rl, b"my_mutex", 1000).unwrap();
    assert_eq!(
        servers[0].requests,
        vec![vec![
            b"SET".to_vec(),
            b"my_mutex".to_vec(),
            held.val.clone(),
            b"nx".to_vec(),
            b"px".to_vec(),
            b"1000".to_vec(),
        ]]
    );
}

#[test]
fn a_blocking_lock_keeps_the_other_managers_out() {
    let (mut servers, addresses) = create_clients();
    let blocking = RedLock::new(addresses.clone());
    let mut rl = LockManager::new(addresses);
    rl.set_retry(1, Duration::ZERO);
    let held = blocking_lock(&mut servers, &blocking, b"my_mutex", 1000).unwrap();
    let stranger = Lock {
        resource: held.resource.clone(),
        val: vec![9; 20],
        validity_time: 0,
        lock_manager: rl.clone(),
    };
    wait(&mut servers, held.validity_time as u64 - 2);
    assert!(matches!(
        lock(&mut servers, &rl, "my_mutex", Duration::from_millis(1000)),
        Err(LockError::Unavailable)
    ));
    assert!(matches!(
        extend(&mut servers, &rl, &stranger, Duration::from_millis(1000)),
        Err(LockError::Unavailable)
    ));
    let requests = blocking.unlock(&held);
    assert_eq!(blocking_release(&mut servers, &blocking, &requests), vec![true, true, true]);
    assert!(lock(&mut servers, &rl, "my_mutex", Duration::from_millis(1000)).is_ok());
}

#[test]
fn a_client_is_shown_by_its_kind_alone() {
    let standalone = LockManager::new(vec!["redis://someone@127.0.0.1:6380/"]);
    let cluster = LockManager::new_cluster(vec!["redis://127.0.0.1:7000/"]).unwrap();
    let kinds = vec![(&standalone, "Standalone"), (&cluster, "Cluster")];
    for (rl, kind) in kinds {
        let client = &rl.lock_inner().servers()[0].client;
        assert_eq!(client.kind(), kind);
        assert_eq!(format!("{:?}", client), kind);
        assert!(format!("{:?}", rl).contains(&format!("client: {} ", kind)));
    }
}

#[test]
fn managers_start_with_three_tries_and_two_hundred_milliseconds() {
    let clients = vec![
        redis::Client::open("redis://127.0.0.1:6380/").unwrap(),
        redis::Client::open("redis://127.0.0.1:6381/").unwrap(),
    ];
    let seeds = vec!["redis://127.0.0.1:7000/", "redis://127.0.0.1:7001/"];
    let cluster = redis::cluster::ClusterClient::new(seeds).unwrap();
    let managers = vec![
        (LockManager::from_clients(clients), 2, 2),
        (LockManager::from_cluster_client(cluster), 1, 1),
    ];
    for (rl, servers, quorum) in managers {
        assert_eq!(rl.lock_inner().servers().len(), servers);
        assert_eq!(rl.lock_inner().get_quorum(), quorum);
        let shown = format!("{:?}", rl);
        assert!(shown.contains("retry_count: 3"));
        assert!(shown.contains(&format!("retry_delay: {:?}", Duration::from_millis(200))));
    }
}

#[test]
fn lock_ids_are_random_in_every_byte() {
    let rl = LockManager::new(Vec::<String>::new());
    let mut varies = [false; 20];
    let first = rl.get_unique_lock_id().unwrap();
    for _ in 0..100 {
        let id = rl.get_unique_lock_id().unwrap();
        for i in 0..20 {
            varies[i] = varies[i] || id[i] != first[i];
        }
    }
    assert_eq!(varies, [true; 20]);
}

#[test]
fn a_cluster_needs_seed_nodes_that_agree() {
    assert!(LockManager::new_cluster(Vec::<String>::new()).is_err());
    let uris = vec!["redis://a@127.0.0.1:7000/", "redis://b@127.0.0.1:7001/"];
    let expected = redis::cluster::ClusterClient::new(uris.clone()).err().unwrap();
    match LockManager::new_cluster(uris) {
        Err(error) => assert_eq!(error, expected),
        Ok(_) => panic!("the seed nodes name different users"),
    }
}
