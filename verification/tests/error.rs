use rslock::LockError;

#[test]
fn every_error_has_a_message() {
    let cases = vec![
        (LockError::Unavailable, "Resource is unavailable"),
        (LockError::TtlExceeded, "TTL exceeded"),
        (LockError::TtlTooLarge, "TTL too large"),
        (LockError::RedisConnectionFailed, "Redis connection failed for all servers"),
        (LockError::RedisFailedToEstablishConnection, "Redis connection failed."),
        (
            LockError::RedisKeyMismatch,
            "Redis key mismatch: expected value does not match actual value",
        ),
        (LockError::RedisKeyNotFound, "Redis key not found"),
        (LockError::MutexPoisoned, "A mutex was poisoned"),
    ];
    for (error, text) in cases {
        assert_eq!(error.message(), text);
    }
}

#[test]
fn a_cause_stands_behind_the_headline() {
    let error = LockError::from(std::io::Error::new(std::io::ErrorKind::Other, "disk on fire"));
    assert!(matches!(error, LockError::Io(_)));
    assert_eq!(error.message(), "IO error: disk on fire");

    let cause = redis::Client::open("not-a-redis-uri").unwrap_err();
    let text = format!("Redis error: {}", cause);
    let error = LockError::from(cause);
    assert!(matches!(error, LockError::Redis(_)));
    assert_eq!(error.message(), text);
}
