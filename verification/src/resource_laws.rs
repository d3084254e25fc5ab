//! What holds of the keys that names stand for.
//!
//! The laws here and in the other modules on calls speak of what calls of the library return:
//! `call_ensures(f, args, result)` is the case whenever `f`, called on `args`, returns `result`.

use crate::resource::{LockResource, ToLockResource};

use vstd::prelude::*;
use vstd::utf8::{decode_utf8, encode_utf8, encode_utf8_decode_utf8};

verus! {

/// The key of a text is all of its UTF-8 bytes, and decoding the key gives the text back.
pub proof fn law_a_text_is_its_own_key<'a>(text: &'a str, resource: LockResource<'a>, key: Vec<u8>)
    requires
        call_ensures(<&'a str as ToLockResource<'a>>::to_lock_resource, (text,), resource),
        call_ensures(LockResource::<'a>::to_vec, (&resource,), key),
    ensures
        key@ == encode_utf8(text@),
        decode_utf8(key@) == text@,
{
    encode_utf8_decode_utf8(text@);
}

/// Different texts name different keys.
pub proof fn law_different_texts_name_different_keys<'a>(
    text: &'a str,
    resource: LockResource<'a>,
    key: Vec<u8>,
    other_text: &'a str,
    other_resource: LockResource<'a>,
    other_key: Vec<u8>,
)
    requires
        call_ensures(<&'a str as ToLockResource<'a>>::to_lock_resource, (text,), resource),
        call_ensures(LockResource::<'a>::to_vec, (&resource,), key),
        call_ensures(
            <&'a str as ToLockResource<'a>>::to_lock_resource,
            (other_text,),
            other_resource,
        ),
        call_ensures(LockResource::<'a>::to_vec, (&other_resource,), other_key),
    ensures
        text@ == other_text@ <==> key@ == other_key@,
{
    encode_utf8_decode_utf8(text@);
    encode_utf8_decode_utf8(other_text@);
}

/// The key of bytes is these bytes, all of them and in their order.
pub proof fn law_bytes_are_their_own_key<'a>(
    bytes: &'a [u8],
    resource: LockResource<'a>,
    key: Vec<u8>,
)
    requires
        call_ensures(<&'a [u8] as ToLockResource<'a>>::to_lock_resource, (bytes,), resource),
        call_ensures(LockResource::<'a>::to_vec, (&resource,), key),
    ensures
        key@ == bytes@,
{
}

/// The key of an array of bytes is these bytes.
pub proof fn law_an_array_is_its_own_key<'a, const N: usize>(
    bytes: &'a [u8; N],
    resource: LockResource<'a>,
    key: Vec<u8>,
)
    requires
        call_ensures(<&'a [u8; N] as ToLockResource<'a>>::to_lock_resource, (bytes,), resource),
        call_ensures(LockResource::<'a>::to_vec, (&resource,), key),
    ensures
        key@ == bytes@,
{
}

/// The key of a vector of bytes is these bytes.
pub proof fn law_a_vector_is_its_own_key<'a>(
    bytes: &'a Vec<u8>,
    resource: LockResource<'a>,
    key: Vec<u8>,
)
    requires
        call_ensures(<&'a Vec<u8> as ToLockResource<'a>>::to_lock_resource, (bytes,), resource),
        call_ensures(LockResource::<'a>::to_vec, (&resource,), key),
    ensures
        key@ == bytes@,
{
}

/// A resource names the key that it is, and hands out its bytes unchanged.
pub proof fn law_a_resource_names_its_own_key<'a>(
    resource: &'a LockResource<'a>,
    key: Vec<u8>,
    again: LockResource<'a>,
    again_key: Vec<u8>,
    slice: &'a [u8],
)
    requires
        call_ensures(LockResource::<'a>::to_vec, (resource,), key),
        call_ensures(
            <&'a LockResource<'a> as ToLockResource<'a>>::to_lock_resource,
            (resource,),
            again,
        ),
        call_ensures(LockResource::<'a>::to_vec, (&again,), again_key),
        call_ensures(LockResource::<'a>::as_slice, (resource,), slice),
    ensures
        again_key@ == key@,
        slice@ == key@,
{
}

/// The key of a list of texts is the UTF-8 encoding of the texts one after another.
pub proof fn law_texts_name_what_they_join_to<'a>(
    parts: &'a [&'a str],
    resource: LockResource<'a>,
    key: Vec<u8>,
)
    requires
        call_ensures(<&'a [&'a str] as ToLockResource<'a>>::to_lock_resource, (parts,), resource),
        call_ensures(LockResource::<'a>::to_vec, (&resource,), key),
    ensures
        key@ == encode_utf8(parts@.map_values(|part: &str| part@).flatten()),
{
    assert(parts@.map_values(|part: &str| part@) =~= crate::resource::texts(parts@));
}

/// The key of a list of byte strings is the bytes of one after another.
pub proof fn law_byte_strings_name_what_they_join_to<'a>(
    parts: &'a [&'a [u8]],
    resource: LockResource<'a>,
    key: Vec<u8>,
)
    requires
        call_ensures(<&'a [&'a [u8]] as ToLockResource<'a>>::to_lock_resource, (parts,), resource),
        call_ensures(LockResource::<'a>::to_vec, (&resource,), key),
    ensures
        key@ == parts@.map_values(|part: &[u8]| part@).flatten(),
{
    assert(parts@.map_values(|part: &[u8]| part@) =~= crate::resource::byte_strings(parts@));
}

/// A list of one text names the same key as the text.
pub proof fn law_a_single_part_names_its_own_key<'a>(
    text: &'a str,
    resource: LockResource<'a>,
    key: Vec<u8>,
    parts: &'a [&'a str],
    parts_resource: LockResource<'a>,
    parts_key: Vec<u8>,
)
    requires
        call_ensures(<&'a str as ToLockResource<'a>>::to_lock_resource, (text,), resource),
        call_ensures(LockResource::<'a>::to_vec, (&resource,), key),
        parts@.len() == 1,
        parts@[0]@ == text@,
        call_ensures(
            <&'a [&'a str] as ToLockResource<'a>>::to_lock_resource,
            (parts,),
            parts_resource,
        ),
        call_ensures(LockResource::<'a>::to_vec, (&parts_resource,), parts_key),
    ensures
        parts_key@ == key@,
{
    law_texts_name_what_they_join_to(parts, parts_resource, parts_key);
    parts@.map_values(|part: &str| part@).lemma_flatten_one_element();
}

} // verus!
