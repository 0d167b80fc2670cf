//! What this library takes on trust from `bytes::BytesMut` and from
//! `String::from_utf8`. Nothing in this file is proved: each contract restates
//! what the function's documentation and source say.

use bytes::BytesMut;
use vstd::prelude::*;
use vstd::utf8::{decode_utf8, valid_utf8};

verus! {

/// `bytes::BytesMut`, a growable byte buffer, as an opaque type.
#[verifier::external_type_specification]
#[verifier::external_body]
pub struct ExBytesMut(BytesMut);

/// The bytes that a buffer holds, first to last: those of the slice that it
/// dereferences to.
pub uninterp spec fn buffered(buffer: BytesMut) -> Seq<u8>;

/// `BytesMut::len`: the number of bytes held.
pub assume_specification[ BytesMut::len ](buffer: &BytesMut) -> (len: usize)
    ensures
        len == buffered(*buffer).len(),
;

/// `AsRef<[u8]>` for `BytesMut`: the bytes held, as a slice.
pub assume_specification<'a>[ <BytesMut as AsRef<[u8]>>::as_ref ](buffer: &'a BytesMut) -> (bytes:
    &'a [u8])
    ensures
        bytes@ == buffered(*buffer),
;

/// `BytesMut::split_to`: the buffer keeps the bytes from `at` on and hands
/// back those before it. It panics where `at` is past the end, so that is
/// required not to be.
pub assume_specification[ BytesMut::split_to ](buffer: &mut BytesMut, at: usize) -> (head: BytesMut)
    requires
        at <= buffered(*old(buffer)).len(),
    ensures
        buffered(*final(buffer)) == buffered(*old(buffer)).skip(at as int),
        buffered(head) == buffered(*old(buffer)).take(at as int),
;

/// `BytesMut::extend_from_slice`: the given bytes are appended. The function
/// reserves room first, which panics where the new length overflows `usize`;
/// running out of memory is, as for `Vec`, outside this contract.
pub assume_specification[ BytesMut::extend_from_slice ](buffer: &mut BytesMut, extend: &[u8])
    requires
        buffered(*old(buffer)).len() + extend@.len() <= usize::MAX,
    ensures
        buffered(*final(buffer)) == buffered(*old(buffer)) + extend@,
;

/// `String::from_utf8`: the string that the bytes spell, exactly where they
/// are valid UTF-8.
#[verifier::external_body]
pub(crate) fn string_from_utf8(bytes: Vec<u8>) -> (text: Option<String>)
    ensures
        text is Some <==> valid_utf8(bytes@),
        text matches Some(t) ==> t@ == decode_utf8(bytes@),
{
    match String::from_utf8(bytes) {
        Ok(text) => Some(text),
        Err(_) => None,
    }
}

} // verus!
