//! Null-terminated buffers: the C-compatible shape in which every string and
//! body crosses into the validation engine, and in which engine-owned strings
//! come back.
//!
//! The native side keeps ordinary `String`s and byte vectors; the functions
//! here append and strip the terminating NUL at the boundary and turn the
//! engine's "no embedded NUL, valid UTF-8" obligations into typed failures.

use vstd::prelude::*;
use vstd::utf8::{encode_utf8, valid_utf8, encode_utf8_decode_utf8};
use crate::errors::EncodingError;

verus! {

/// The engine-bound buffer carrying the raw bytes `bytes`: the payload
/// followed by the terminating NUL.
pub open spec fn c_bytes_of(bytes: Seq<u8>) -> Seq<u8> {
    bytes.push(0u8)
}

/// The engine-bound buffer encoding the character sequence `s`.
pub open spec fn c_str_of(s: Seq<char>) -> Seq<u8> {
    c_bytes_of(encode_utf8(s))
}

/// A well-formed C string buffer: non-empty, NUL-terminated, and without an
/// interior NUL.
pub open spec fn c_str_wf(b: Seq<u8>) -> bool {
    &&& b.len() >= 1
    &&& b.last() == 0u8
    &&& forall|i: int| 0 <= i < b.len() - 1 ==> b[i] != 0u8
}

/// `s` can cross the boundary: its byte encoding has no embedded NUL.
pub open spec fn str_encodable(s: Seq<char>) -> bool {
    !encode_utf8(s).contains(0u8)
}

/// Two character sequences with the same engine-bound buffer are the same
/// sequence: appending the terminator and UTF-8 encoding both keep strings
/// apart.
pub proof fn lemma_c_str_of_injective(s1: Seq<char>, s2: Seq<char>)
    requires
        c_str_of(s1) == c_str_of(s2),
    ensures
        s1 == s2,
{
    assert(encode_utf8(s1) =~= encode_utf8(s2)) by {
        assert(c_bytes_of(encode_utf8(s1)).len() == c_bytes_of(encode_utf8(s2)).len());
        assert(forall|i: int|
            0 <= i < encode_utf8(s1).len() ==> encode_utf8(s1)[i] == c_bytes_of(encode_utf8(s1))[i]
                && encode_utf8(s2)[i] == c_bytes_of(encode_utf8(s2))[i]);
    }
    encode_utf8_decode_utf8(s1);
    encode_utf8_decode_utf8(s2);
}

/// Append the terminating NUL to a byte payload, refusing payloads that
/// already contain one: a C string cannot carry an interior NUL.
pub fn encode_c_bytes(data: &[u8]) -> (r: Result<Vec<u8>, EncodingError>)
    ensures
        r is Ok <==> !data@.contains(0u8),
        r is Ok ==> r->Ok_0@ == c_bytes_of(data@) && c_str_wf(r->Ok_0@),
        r is Err ==> r->Err_0 == EncodingError::EmbeddedNul,
{
    let mut out: Vec<u8> = Vec::new();
    let n = data.len();
    let mut i: usize = 0;
    while i < n
        invariant
            n == data@.len(),
            0 <= i <= n,
            out@ =~= data@.subrange(0, i as int),
            forall|j: int| 0 <= j < i ==> data@[j] != 0u8,
        decreases n - i,
    {
        let b = data[i];
        if b == 0 {
            assert(data@.contains(0u8));
            return Err(EncodingError::EmbeddedNul);
        }
        out.push(b);
        i += 1;
    }
    assert(out@ =~= data@);
    out.push(0);
    assert(!data@.contains(0u8));
    Ok(out)
}

/// Turn a native string into its engine-bound NUL-terminated buffer,
/// refusing strings whose encoding holds an embedded NUL.
pub fn encode_c_string(s: &str) -> (r: Result<Vec<u8>, EncodingError>)
    ensures
        r is Ok <==> str_encodable(s@),
        r is Ok ==> r->Ok_0@ == c_str_of(s@) && c_str_wf(r->Ok_0@),
        r is Err ==> r->Err_0 == EncodingError::EmbeddedNul,
{
    encode_c_bytes(s.as_bytes())
}

/// Relies on `String::from_utf8`: it succeeds exactly on valid UTF-8 input,
/// and the string it returns is the one the input bytes encode.
#[verifier::external_body]
fn string_from_utf8(bytes: Vec<u8>) -> (r: Option<String>)
    ensures
        valid_utf8(bytes@) ==> r is Some && encode_utf8(r->Some_0@) == bytes@,
        !valid_utf8(bytes@) ==> r is None,
{
    String::from_utf8(bytes).ok()
}

/// Turn a NUL-terminated buffer copied out of the engine into a natively
/// owned string: strip the terminator, then insist on valid UTF-8.
pub fn decode_c_string(buf: Vec<u8>) -> (r: Result<String, EncodingError>)
    requires
        c_str_wf(buf@),
    ensures
        r is Ok <==> valid_utf8(buf@.drop_last()),
        r is Ok ==> c_str_of(r->Ok_0@) == buf@,
        r is Err ==> r->Err_0 == EncodingError::InvalidUtf8,
{
    let ghost whole = buf@;
    let mut payload = buf;
    payload.pop();
    assert(payload@ == whole.drop_last());
    match string_from_utf8(payload) {
        Some(s) => {
            proof {
                vstd::utf8::decode_utf8_encode_utf8(whole.drop_last());
                assert(c_str_of(s@) =~= whole);
            }
            Ok(s)
        },
        None => Err(EncodingError::InvalidUtf8),
    }
}

} // verus!
