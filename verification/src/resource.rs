//! The keys that locks are taken on.

use std::borrow::Cow;

use vstd::prelude::*;
use vstd::utf8::encode_utf8;

verus! {

/// The bytes of a Redis key that a lock guards.
pub struct LockResource<'a> {
    bytes: Cow<'a, [u8]>,
}

impl<'a> View for LockResource<'a> {
    type V = Seq<u8>;

    closed spec fn view(&self) -> Seq<u8> {
        self.bytes@
    }
}

impl<'a> LockResource<'a> {
    /// An owned copy of the key.
    pub fn to_vec(&self) -> (bytes: Vec<u8>)
        ensures
            bytes@ == self@,
    {
        copy_of(self.as_slice())
    }

    /// The key itself.
    pub fn as_slice(&self) -> (bytes: &[u8])
        ensures
            bytes@ == self@,
    {
        match &self.bytes {
            Cow::Borrowed(bytes) => bytes,
            Cow::Owned(bytes) => bytes.as_slice(),
        }
    }
}

/// A copy of `bytes` on the heap.
pub(crate) fn copy_of(bytes: &[u8]) -> (copy: Vec<u8>)
    ensures
        copy@ == bytes@,
{
    let mut copy: Vec<u8> = Vec::new();
    copy.extend_from_slice(bytes);
    assert(copy@ =~= bytes@);
    copy
}

/// What can name a lock: a value that stands for the bytes of one key.
pub trait ToLockResource<'a>: Sized {
    /// The key that the value stands for.
    spec fn key_bytes(self) -> Seq<u8>;

    fn to_lock_resource(self) -> (resource: LockResource<'a>)
        ensures
            resource@ == self.key_bytes(),
    ;
}

impl<'a> ToLockResource<'a> for &'a LockResource<'a> {
    open spec fn key_bytes(self) -> Seq<u8> {
        self@
    }

    fn to_lock_resource(self) -> (resource: LockResource<'a>) {
        LockResource { bytes: Cow::Borrowed(self.as_slice()) }
    }
}

impl<'a> ToLockResource<'a> for &'a [u8] {
    open spec fn key_bytes(self) -> Seq<u8> {
        self@
    }

    fn to_lock_resource(self) -> (resource: LockResource<'a>) {
        LockResource { bytes: Cow::Borrowed(self) }
    }
}

impl<'a, const N: usize> ToLockResource<'a> for &'a [u8; N] {
    open spec fn key_bytes(self) -> Seq<u8> {
        self@
    }

    fn to_lock_resource(self) -> (resource: LockResource<'a>) {
        LockResource { bytes: Cow::Borrowed(self.as_slice()) }
    }
}

impl<'a> ToLockResource<'a> for &'a Vec<u8> {
    open spec fn key_bytes(self) -> Seq<u8> {
        self@
    }

    fn to_lock_resource(self) -> (resource: LockResource<'a>) {
        LockResource { bytes: Cow::Borrowed(self.as_slice()) }
    }
}

impl<'a> ToLockResource<'a> for &'a str {
    open spec fn key_bytes(self) -> Seq<u8> {
        encode_utf8(self@)
    }

    fn to_lock_resource(self) -> (resource: LockResource<'a>) {
        LockResource { bytes: Cow::Borrowed(self.as_bytes()) }
    }
}

/// The parts one after another.
pub open spec fn joined<T>(parts: Seq<Seq<T>>) -> Seq<T> {
    parts.flatten()
}

/// The text of each part.
pub open spec fn texts(parts: Seq<&str>) -> Seq<Seq<char>> {
    parts.map_values(|part: &str| part@)
}

/// The bytes of each part.
pub open spec fn byte_strings(parts: Seq<&[u8]>) -> Seq<Seq<u8>> {
    parts.map_values(|part: &[u8]| part@)
}

impl<'a> ToLockResource<'a> for &'a [&'a str] {
    open spec fn key_bytes(self) -> Seq<u8> {
        encode_utf8(joined(texts(self@)))
    }

    fn to_lock_resource(self) -> (resource: LockResource<'a>) {
        let mut bytes: Vec<u8> = Vec::new();
        let mut i: usize = 0;
        while i < self.len()
            invariant
                i <= self@.len(),
                bytes@ == encode_utf8(joined(texts(self@.take(i as int)))),
            decreases self@.len() - i,
        {
            let part: &str = self[i];
            bytes.extend_from_slice(part.as_bytes());
            proof {
                let before = texts(self@.take(i as int));
                assert(texts(self@.take(i + 1)) =~= before.push(part@));
                before.lemma_flatten_push(part@);
                lemma_encode_utf8_concat(joined(before), part@);
                assert(bytes@ =~= encode_utf8(joined(before)) + encode_utf8(part@));
            }
            i = i + 1;
        }
        assert(self@.take(i as int) =~= self@);
        LockResource { bytes: Cow::Owned(bytes) }
    }
}

impl<'a> ToLockResource<'a> for &'a [&'a [u8]] {
    open spec fn key_bytes(self) -> Seq<u8> {
        joined(byte_strings(self@))
    }

    fn to_lock_resource(self) -> (resource: LockResource<'a>) {
        let mut bytes: Vec<u8> = Vec::new();
        let mut i: usize = 0;
        while i < self.len()
            invariant
                i <= self@.len(),
                bytes@ == joined(byte_strings(self@.take(i as int))),
            decreases self@.len() - i,
        {
            let part: &[u8] = self[i];
            bytes.extend_from_slice(part);
            proof {
                let before = byte_strings(self@.take(i as int));
                assert(byte_strings(self@.take(i + 1)) =~= before.push(part@));
                before.lemma_flatten_push(part@);
                assert(bytes@ =~= joined(before) + part@);
            }
            i = i + 1;
        }
        assert(self@.take(i as int) =~= self@);
        LockResource { bytes: Cow::Owned(bytes) }
    }
}

/// UTF-8 encodes texts piece by piece.
pub proof fn lemma_encode_utf8_concat(front: Seq<char>, back: Seq<char>)
    ensures
        encode_utf8(front + back) == encode_utf8(front) + encode_utf8(back),
    decreases front.len(),
{
    if front.len() == 0 {
        assert(front + back =~= back);
        assert(encode_utf8(front) =~= Seq::<u8>::empty());
    } else {
        lemma_encode_utf8_concat(front.drop_first(), back);
        assert((front + back).drop_first() =~= front.drop_first() + back);
        assert(encode_utf8(front + back) =~= encode_utf8(front) + encode_utf8(back));
    }
}

/// The key of a list of texts is the key of the list of their UTF-8 encodings: naming a lock by
/// text parts and naming it by the same parts in bytes is the same.
pub proof fn law_text_parts_name_the_key_of_their_bytes(parts: Seq<Seq<char>>)
    ensures
        encode_utf8(joined(parts)) == joined(
            parts.map_values(|part: Seq<char>| encode_utf8(part)),
        ),
    decreases parts.len(),
{
    let encode = |part: Seq<char>| encode_utf8(part);
    if parts.len() > 0 {
        law_text_parts_name_the_key_of_their_bytes(parts.drop_first());
        lemma_encode_utf8_concat(parts.first(), joined(parts.drop_first()));
        assert(parts.map_values(encode).drop_first() =~= parts.drop_first().map_values(encode));
    }
}

} // verus!
