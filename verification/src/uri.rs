//! Connection strings.

use crate::backend::{open_client, opened_client};

use vstd::prelude::*;

verus! {

/// A value that can be read as a connection string, such as `redis://127.0.0.1:6379`.
pub trait RedisUri {
    /// The connection string.
    spec fn uri(&self) -> Seq<char>;

    fn as_uri(&self) -> (uri: &str)
        ensures
            uri@ == self.uri(),
    ;
}

impl RedisUri for String {
    open spec fn uri(&self) -> Seq<char> {
        self@
    }

    fn as_uri(&self) -> (uri: &str) {
        self.as_str()
    }
}

impl<'a> RedisUri for &'a str {
    open spec fn uri(&self) -> Seq<char> {
        self@
    }

    fn as_uri(&self) -> (uri: &str) {
        self
    }
}

/// The connection strings that values stand for.
pub open spec fn uris_of<T: RedisUri>(uris: Seq<T>) -> Seq<Seq<char>> {
    uris.map_values(|uri: T| uri.uri())
}

/// Every one of the strings is a connection string.
pub open spec fn all_open(uris: Seq<Seq<char>>) -> bool {
    forall|i: int| 0 <= i < uris.len() ==> opened_client(#[trigger] uris[i]) is Ok
}

/// The clients that the connection strings name.
pub open spec fn clients_of(uris: Seq<Seq<char>>) -> Seq<redis::Client> {
    uris.map_values(|uri: Seq<char>| opened_client(uri)->Ok_0)
}

/// `error` is why the first of the strings that is no connection string is none.
pub open spec fn first_failure(uris: Seq<Seq<char>>, error: redis::RedisError) -> bool {
    exists|i: int|
        0 <= i < uris.len() && opened_client(#[trigger] uris[i]) == Err::<
            redis::Client,
            redis::RedisError,
        >(error) && all_open(uris.take(i))
}

/// The clients that the connection strings name, or why the first string that is no connection
/// string is none.
pub(crate) fn open_all<T: RedisUri>(uris: &Vec<T>) -> (clients: Result<
    Vec<redis::Client>,
    redis::RedisError,
>)
    ensures
        match clients {
            Ok(clients) => all_open(uris_of(uris@)) && clients@ == clients_of(uris_of(uris@)),
            Err(error) => first_failure(uris_of(uris@), error),
        },
{
    let ghost strings = uris_of(uris@);
    let mut clients: Vec<redis::Client> = Vec::new();
    let mut i: usize = 0;
    while i < uris.len()
        invariant
            i <= uris@.len(),
            strings == uris_of(uris@),
            all_open(strings.take(i as int)),
            clients@ == clients_of(strings.take(i as int)),
        decreases uris@.len() - i,
    {
        assert(strings[i as int] == uris@[i as int].uri());
        match open_client(uris[i].as_uri()) {
            Ok(client) => clients.push(client),
            Err(error) => return Err(error),
        }
        assert(strings.take(i + 1) =~= strings.take(i as int).push(strings[i as int]));
        assert(clients@ =~= clients_of(strings.take(i + 1)));
        assert forall|j: int| 0 <= j < i + 1 implies opened_client(
            #[trigger] strings.take(i + 1)[j],
        ) is Ok by {
            if j < i {
                assert(strings.take(i as int)[j] == strings[j]);
            }
        }
        i = i + 1;
    }
    assert(strings.take(i as int) =~= strings);
    Ok(clients)
}

} // verus!
