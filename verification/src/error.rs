//! Why a lock could not be taken, kept or looked up.

use vstd::prelude::*;
use vstd::string::to_string_from_display_ensures;

verus! {

/// An error of the operating system.
#[verifier::external_type_specification]
#[verifier::external_body]
pub struct ExIoError(std::io::Error);

#[derive(Debug)]
pub enum LockError {
    Io(std::io::Error),
    Redis(redis::RedisError),
    /// Too few servers granted the lock, in every attempt.
    Unavailable,
    /// The attempt took so long that nothing of the time to live is left.
    TtlExceeded,
    /// A span of time has more milliseconds than the machine counts.
    TtlTooLarge,
    /// No server answered.
    RedisConnectionFailed,
    RedisFailedToEstablishConnection,
    /// The key holds the value of another lock.
    RedisKeyMismatch,
    /// The key does not exist.
    RedisKeyNotFound,
    MutexPoisoned,
}

impl LockError {
    /// What the message of the error says in front of the message of its cause, and all of it
    /// where it has no cause.
    pub open spec fn headline(self) -> Seq<char> {
        match self {
            LockError::Io(_) => "IO error: "@,
            LockError::Redis(_) => "Redis error: "@,
            LockError::Unavailable => "Resource is unavailable"@,
            LockError::TtlExceeded => "TTL exceeded"@,
            LockError::TtlTooLarge => "TTL too large"@,
            LockError::RedisConnectionFailed => "Redis connection failed for all servers"@,
            LockError::RedisFailedToEstablishConnection => "Redis connection failed."@,
            LockError::RedisKeyMismatch => "Redis key mismatch: expected value does not match actual value"@,
            LockError::RedisKeyNotFound => "Redis key not found"@,
            LockError::MutexPoisoned => "A mutex was poisoned"@,
        }
    }

    /// The message of the error in words. Where the error has a cause, the cause's own message
    /// stands at the end.
    pub fn message(&self) -> (text: String)
        ensures
            match *self {
                LockError::Io(error) => exists|cause: String|
                    to_string_from_display_ensures::<std::io::Error>(&error, cause) && text@
                        == self.headline() + #[trigger] cause@,
                LockError::Redis(error) => exists|cause: String|
                    to_string_from_display_ensures::<redis::RedisError>(&error, cause) && text@
                        == self.headline() + #[trigger] cause@,
                _ => text@ == self.headline(),
            },
    {
        match self {
            LockError::Io(error) => with_cause("IO error: ", error.to_string()),
            LockError::Redis(error) => with_cause("Redis error: ", error.to_string()),
            LockError::Unavailable => "Resource is unavailable".to_owned(),
            LockError::TtlExceeded => "TTL exceeded".to_owned(),
            LockError::TtlTooLarge => "TTL too large".to_owned(),
            LockError::RedisConnectionFailed => "Redis connection failed for all servers".to_owned(),
            LockError::RedisFailedToEstablishConnection => "Redis connection failed.".to_owned(),
            LockError::RedisKeyMismatch => "Redis key mismatch: expected value does not match actual value".to_owned(),
            LockError::RedisKeyNotFound => "Redis key not found".to_owned(),
            LockError::MutexPoisoned => "A mutex was poisoned".to_owned(),
        }
    }
}

/// `headline` with `cause` behind it.
fn with_cause(headline: &str, cause: String) -> (text: String)
    ensures
        text@ == headline@ + cause@,
{
    let mut text: String = headline.to_owned();
    text.append(cause.as_str());
    text
}

impl From<std::io::Error> for LockError {
    fn from(error: std::io::Error) -> (e: LockError) {
        LockError::Io(error)
    }
}

impl vstd::std_specs::convert::FromSpecImpl<std::io::Error> for LockError {
    open spec fn obeys_from_spec() -> bool {
        true
    }

    open spec fn from_spec(error: std::io::Error) -> LockError {
        LockError::Io(error)
    }
}

impl From<redis::RedisError> for LockError {
    fn from(error: redis::RedisError) -> (e: LockError) {
        LockError::Redis(error)
    }
}

impl vstd::std_specs::convert::FromSpecImpl<redis::RedisError> for LockError {
    open spec fn obeys_from_spec() -> bool {
        true
    }

    open spec fn from_spec(error: redis::RedisError) -> LockError {
        LockError::Redis(error)
    }
}

} // verus!
