//! The header multimap and its engine-bound form: a contiguous array of
//! name/value buffer pairs terminated by a sentinel entry.
//!
//! The engine's protocol uses a NUL-terminated array rather than a
//! length-prefixed one, so the sentinel is appended whatever the number of
//! headers, including zero; natively the collection stays sentinel-free.

use vstd::prelude::*;
use crate::cstr::{c_str_of, str_encodable, encode_c_string};
use crate::errors::EncodingError;

verus! {

/// One name/value pair. Requests and responses carry an order-insensitive,
/// duplicate-permitting collection of these.
#[derive(Debug, Clone, PartialEq, Eq)]
pub struct Header {
    pub name: String,
    pub value: String,
}

/// The engine-bound form of one header: both parts as NUL-terminated
/// buffers.
#[derive(Debug, Clone, PartialEq, Eq)]
pub struct CHeaderBuf {
    pub name: Vec<u8>,
    pub value: Vec<u8>,
}

/// `c` is the engine-bound encoding of `h`.
pub open spec fn header_encoded(c: CHeaderBuf, h: Header) -> bool {
    &&& c.name@ == c_str_of(h.name@)
    &&& c.value@ == c_str_of(h.value@)
}

/// Both parts of `h` can cross the boundary.
pub open spec fn header_encodable(h: Header) -> bool {
    str_encodable(h.name@) && str_encodable(h.value@)
}

/// The shape of an engine-bound array: every entry but the last present,
/// the last the sentinel.
pub open spec fn sentinel_terminated<T>(a: Seq<Option<T>>) -> bool {
    &&& a.len() >= 1
    &&& a.last() is None
    &&& forall|i: int| 0 <= i < a.len() - 1 ==> a[i] is Some
}

/// `a` is the engine-bound encoding of the header collection `hs`: one
/// encoded entry per header, in order, closed by the sentinel.
pub open spec fn headers_encoded(a: Seq<Option<CHeaderBuf>>, hs: Seq<Header>) -> bool {
    &&& a.len() == hs.len() + 1
    &&& a.last() is None
    &&& forall|i: int| 0 <= i < hs.len() ==> a[i] is Some && header_encoded(a[i]->Some_0, hs[i])
}

/// Encode a header collection of any size into the engine-bound array. The
/// result always holds exactly one entry more than the collection, the last
/// being the sentinel.
pub fn encode_headers(hs: &Vec<Header>) -> (r: Result<Vec<Option<CHeaderBuf>>, EncodingError>)
    ensures
        r is Ok <==> (forall|i: int| 0 <= i < hs@.len() ==> header_encodable(hs@[i])),
        r is Ok ==> headers_encoded(r->Ok_0@, hs@),
        r is Ok ==> sentinel_terminated(r->Ok_0@),
        r is Err ==> r->Err_0 == EncodingError::EmbeddedNul,
{
    let mut out: Vec<Option<CHeaderBuf>> = Vec::new();
    let n = hs.len();
    let mut i: usize = 0;
    while i < n
        invariant
            n == hs@.len(),
            0 <= i <= n,
            out@.len() == i,
            forall|j: int| 0 <= j < i ==> header_encodable(hs@[j]),
            forall|j: int| 0 <= j < i ==> out@[j] is Some && header_encoded(out@[j]->Some_0, hs@[j]),
        decreases n - i,
    {
        let name = match encode_c_string(hs[i].name.as_str()) {
            Ok(b) => b,
            Err(e) => {
                return Err(e);
            },
        };
        let value = match encode_c_string(hs[i].value.as_str()) {
            Ok(b) => b,
            Err(e) => {
                return Err(e);
            },
        };
        out.push(Some(CHeaderBuf { name, value }));
        i += 1;
    }
    out.push(None);
    Ok(out)
}

} // verus!
