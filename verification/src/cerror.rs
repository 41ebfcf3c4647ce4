//! The engine's error structure in C-compatible shape, held as plain values:
//! nullable pointers become `Option`s, C strings become NUL-terminated byte
//! buffers, and the trace pointer array becomes a sentinel-terminated vector.
//!
//! `decode_error` is the verified half of the decode-then-free chokepoint:
//! it consumes a snapshot whose every byte has already been copied out of
//! engine-owned memory, so nothing here ever touches the engine's
//! allocation. `encode_error` is the mirror image used when an error is
//! handed back to the engine's serializer.

use vstd::prelude::*;
use vstd::utf8::valid_utf8;
use crate::cstr::{
    c_str_of, c_str_wf, str_encodable, encode_c_string, decode_c_string, lemma_c_str_of_injective,
};
use crate::errors::{EncodingError, ErrorPosition, ValidationError};
use crate::headers::sentinel_terminated;

verus! {

/// The violation location in engine shape: every component independently
/// nullable.
#[derive(Debug, Clone, PartialEq, Eq)]
pub struct CErrorPosition {
    pub filepath: Option<Vec<u8>>,
    pub index: Option<i32>,
    pub line: Option<i32>,
    pub col: Option<i32>,
}

/// The engine's error structure as plain values: string fields as
/// NUL-terminated buffers, the position as a nullable structure, and the
/// trace as a nullable, sentinel-terminated array of buffers.
#[derive(Debug, Clone, PartialEq, Eq)]
pub struct CValidationError {
    pub reported_by: Vec<u8>,
    pub kind: Vec<u8>,
    pub code: i32,
    pub title: Vec<u8>,
    pub detail: Vec<u8>,
    pub position: Option<CErrorPosition>,
    pub trace: Option<Vec<Option<Vec<u8>>>>,
}

/// Well-formed engine-shaped position: a present filepath is a well-formed
/// C string buffer.
pub open spec fn c_position_wf(cp: CErrorPosition) -> bool {
    cp.filepath is Some ==> c_str_wf(cp.filepath->0@)
}

/// Well-formed engine-shaped trace: sentinel-terminated, every present
/// entry a well-formed C string buffer.
pub open spec fn c_trace_wf(t: Seq<Option<Vec<u8>>>) -> bool {
    &&& sentinel_terminated(t)
    &&& forall|i: int| 0 <= i < t.len() - 1 ==> c_str_wf(t[i]->0@)
}

/// Well-formed engine-shaped error: every buffer reachable from it is a
/// well-formed C string buffer and the trace, when present, carries its
/// sentinel. Buffers copied out of the engine have this shape by the
/// engine's own protocol.
pub open spec fn c_error_wf(c: CValidationError) -> bool {
    &&& c_str_wf(c.reported_by@)
    &&& c_str_wf(c.kind@)
    &&& c_str_wf(c.title@)
    &&& c_str_wf(c.detail@)
    &&& (c.position is Some ==> c_position_wf(c.position->0))
    &&& (c.trace is Some ==> c_trace_wf(c.trace->0@))
}

/// `e`'s position can cross the boundary.
pub open spec fn position_encodable(p: ErrorPosition) -> bool {
    p.filepath is Some ==> str_encodable(p.filepath->0@)
}

/// Every string reachable from `e` can cross the boundary: no byte encoding
/// holds an embedded NUL.
pub open spec fn error_encodable(e: ValidationError) -> bool {
    &&& str_encodable(e.reported_by@)
    &&& str_encodable(e.kind@)
    &&& str_encodable(e.title@)
    &&& str_encodable(e.detail@)
    &&& position_encodable(e.position)
    &&& (forall|i: int| 0 <= i < e.trace@.len() ==> str_encodable(e.trace@[i]@))
}

/// `c` is the engine-bound encoding of the position `p`: a fully absent
/// position is encoded as the null structure, never as a present structure
/// of nulls.
pub open spec fn position_encoding_of(p: ErrorPosition, c: Option<CErrorPosition>) -> bool {
    if p.is_absent() {
        c is None
    } else {
        &&& c is Some
        &&& (match p.filepath {
            Some(f) => c->0.filepath is Some && c->0.filepath->0@ == c_str_of(f@),
            None => c->0.filepath is None,
        })
        &&& c->0.index == p.index
        &&& c->0.line == p.line
        &&& c->0.col == p.col
    }
}

/// `t` is the engine-bound encoding of the trace `tr`: one buffer per
/// element, in order, closed by the sentinel.
pub open spec fn trace_encoding_of(tr: Seq<String>, t: Seq<Option<Vec<u8>>>) -> bool {
    &&& t.len() == tr.len() + 1
    &&& t.last() is None
    &&& (forall|i: int| 0 <= i < tr.len() ==> t[i] is Some && t[i]->0@ == c_str_of(tr[i]@))
}

/// `c` is the engine-bound encoding of the error `e`.
pub open spec fn error_encoding_of(e: ValidationError, c: CValidationError) -> bool {
    &&& c.reported_by@ == c_str_of(e.reported_by@)
    &&& c.kind@ == c_str_of(e.kind@)
    &&& c.code == e.code
    &&& c.title@ == c_str_of(e.title@)
    &&& c.detail@ == c_str_of(e.detail@)
    &&& position_encoding_of(e.position, c.position)
    &&& c.trace is Some
    &&& trace_encoding_of(e.trace@, c.trace->0@)
}

/// The payload of a buffer (everything before the terminator) is valid
/// UTF-8, so it decodes to a native string.
pub open spec fn buf_decodable(b: Seq<u8>) -> bool {
    valid_utf8(b.drop_last())
}

/// Every entry of a sentinel-terminated trace array decodes.
pub open spec fn trace_bufs_decodable(t: Seq<Option<Vec<u8>>>) -> bool {
    forall|i: int| 0 <= i < t.len() - 1 ==> buf_decodable(t[i]->0@)
}

/// Every buffer reachable from `c` decodes.
pub open spec fn error_decodable(c: CValidationError) -> bool {
    &&& buf_decodable(c.reported_by@)
    &&& buf_decodable(c.kind@)
    &&& buf_decodable(c.title@)
    &&& buf_decodable(c.detail@)
    &&& (c.position is Some && c.position->0.filepath is Some ==> buf_decodable(
        c.position->0.filepath->0@,
    ))
    &&& (c.trace is Some ==> trace_bufs_decodable(c.trace->0@))
}

/// `p` is the native reading of the engine-shaped position `c`: the null
/// structure reads as the fully absent position, and each component is
/// copied independently of the others.
pub open spec fn position_decodes_to(c: Option<CErrorPosition>, p: ErrorPosition) -> bool {
    match c {
        None => p.is_absent(),
        Some(cp) => {
            &&& (match cp.filepath {
                Some(fb) => p.filepath is Some && c_str_of(p.filepath->0@) == fb@,
                None => p.filepath is None,
            })
            &&& p.index == cp.index
            &&& p.line == cp.line
            &&& p.col == cp.col
        },
    }
}

/// `tr` is the native reading of the engine-shaped trace `t`: a null array
/// reads as the empty trace, a present one as its entries before the
/// sentinel, in order.
pub open spec fn trace_decodes_to(t: Option<Vec<Option<Vec<u8>>>>, tr: Seq<String>) -> bool {
    match t {
        None => tr.len() == 0,
        Some(tv) => {
            &&& tr.len() == tv@.len() - 1
            &&& (forall|i: int| 0 <= i < tr.len() ==> c_str_of(tr[i]@) == tv@[i]->0@)
        },
    }
}

/// `e` is the native reading of the engine-shaped error `c`.
pub open spec fn error_decodes_to(c: CValidationError, e: ValidationError) -> bool {
    &&& c_str_of(e.reported_by@) == c.reported_by@
    &&& c_str_of(e.kind@) == c.kind@
    &&& e.code == c.code
    &&& c_str_of(e.title@) == c.title@
    &&& c_str_of(e.detail@) == c.detail@
    &&& position_decodes_to(c.position, e.position)
    &&& trace_decodes_to(c.trace, e.trace@)
}

/// Equality of two native positions up to string contents.
pub open spec fn position_eq(a: ErrorPosition, b: ErrorPosition) -> bool {
    &&& (match (a.filepath, b.filepath) {
        (Some(x), Some(y)) => x@ == y@,
        (None, None) => true,
        _ => false,
    })
    &&& a.index == b.index
    &&& a.line == b.line
    &&& a.col == b.col
}

/// Equality of two native errors up to string contents.
pub open spec fn error_eq(a: ValidationError, b: ValidationError) -> bool {
    &&& a.reported_by@ == b.reported_by@
    &&& a.kind@ == b.kind@
    &&& a.code == b.code
    &&& a.title@ == b.title@
    &&& a.detail@ == b.detail@
    &&& position_eq(a.position, b.position)
    &&& a.trace@.len() == b.trace@.len()
    &&& (forall|i: int| 0 <= i < a.trace@.len() ==> a.trace@[i]@ == b.trace@[i]@)
}

/// Round-trip law: whatever combination of position components is present
/// and whatever the length of the trace, reading back the engine-bound
/// encoding of an error yields the error itself.
pub proof fn lemma_error_round_trip(e: ValidationError, c: CValidationError, e2: ValidationError)
    requires
        error_encoding_of(e, c),
        error_decodes_to(c, e2),
    ensures
        error_eq(e, e2),
{
    lemma_c_str_of_injective(e.reported_by@, e2.reported_by@);
    lemma_c_str_of_injective(e.kind@, e2.kind@);
    lemma_c_str_of_injective(e.title@, e2.title@);
    lemma_c_str_of_injective(e.detail@, e2.detail@);
    if !e.position.is_absent() {
        match (e.position.filepath, e2.position.filepath) {
            (Some(f), Some(f2)) => lemma_c_str_of_injective(f@, f2@),
            _ => (),
        }
    }
    assert(e2.trace@.len() == e.trace@.len());
    assert forall|i: int| 0 <= i < e.trace@.len() implies e.trace@[i]@ == e2.trace@[i]@ by {
        lemma_c_str_of_injective(e.trace@[i]@, e2.trace@[i]@);
    }
}

/// Encode a trace of any length into the engine-bound array, closed by the
/// sentinel.
pub fn encode_trace(tr: &Vec<String>) -> (r: Result<Vec<Option<Vec<u8>>>, EncodingError>)
    ensures
        r is Ok <==> (forall|i: int| 0 <= i < tr@.len() ==> str_encodable(tr@[i]@)),
        r is Ok ==> trace_encoding_of(tr@, r->Ok_0@) && c_trace_wf(r->Ok_0@),
        r is Err ==> r->Err_0 == EncodingError::EmbeddedNul,
{
    let mut out: Vec<Option<Vec<u8>>> = Vec::new();
    let n = tr.len();
    let mut i: usize = 0;
    while i < n
        invariant
            n == tr@.len(),
            0 <= i <= n,
            out@.len() == i,
            forall|j: int| 0 <= j < i ==> str_encodable(tr@[j]@),
            forall|j: int|
                0 <= j < i ==> out@[j] is Some && out@[j]->0@ == c_str_of(tr@[j]@) && c_str_wf(
                    out@[j]->0@,
                ),
        decreases n - i,
    {
        let buf = match encode_c_string(tr[i].as_str()) {
            Ok(b) => b,
            Err(e) => {
                return Err(e);
            },
        };
        out.push(Some(buf));
        i += 1;
    }
    out.push(None);
    Ok(out)
}

/// Encode a native position, turning the fully absent position into the
/// null structure and each absent component into a null.
pub fn encode_position(p: &ErrorPosition) -> (r: Result<Option<CErrorPosition>, EncodingError>)
    ensures
        r is Ok <==> position_encodable(*p),
        r is Ok ==> position_encoding_of(*p, r->Ok_0),
        r is Ok ==> (r->Ok_0 is Some ==> c_position_wf(r->Ok_0->0)),
        r is Err ==> r->Err_0 == EncodingError::EmbeddedNul,
{
    let absent = p.filepath.is_none() && p.index.is_none() && p.line.is_none() && p.col.is_none();
    if absent {
        Ok(None)
    } else {
        let filepath = match &p.filepath {
            Some(f) => match encode_c_string(f.as_str()) {
                Ok(b) => Some(b),
                Err(e) => {
                    return Err(e);
                },
            },
            None => None,
        };
        Ok(Some(CErrorPosition { filepath, index: p.index, line: p.line, col: p.col }))
    }
}

/// Re-marshal a natively owned error into the engine's shape, the mirror of
/// the decode direction, for handing to the engine's serializer.
pub fn encode_error(e: &ValidationError) -> (r: Result<CValidationError, EncodingError>)
    ensures
        r is Ok <==> error_encodable(*e),
        r is Ok ==> error_encoding_of(*e, r->Ok_0) && c_error_wf(r->Ok_0),
        r is Err ==> r->Err_0 == EncodingError::EmbeddedNul,
{
    let reported_by = match encode_c_string(e.reported_by.as_str()) {
        Ok(b) => b,
        Err(err) => {
            return Err(err);
        },
    };
    let kind = match encode_c_string(e.kind.as_str()) {
        Ok(b) => b,
        Err(err) => {
            return Err(err);
        },
    };
    let title = match encode_c_string(e.title.as_str()) {
        Ok(b) => b,
        Err(err) => {
            return Err(err);
        },
    };
    let detail = match encode_c_string(e.detail.as_str()) {
        Ok(b) => b,
        Err(err) => {
            return Err(err);
        },
    };
    let position = match encode_position(&e.position) {
        Ok(p) => p,
        Err(err) => {
            return Err(err);
        },
    };
    let trace = match encode_trace(&e.trace) {
        Ok(t) => t,
        Err(err) => {
            return Err(err);
        },
    };
    Ok(
        CValidationError {
            reported_by,
            kind,
            code: e.code,
            title,
            detail,
            position,
            trace: Some(trace),
        },
    )
}

/// Read a sentinel-terminated engine trace back into natively owned
/// strings.
pub fn decode_trace(tv: Vec<Option<Vec<u8>>>) -> (r: Result<Vec<String>, EncodingError>)
    requires
        c_trace_wf(tv@),
    ensures
        r is Ok <==> trace_bufs_decodable(tv@),
        r is Ok ==> r->Ok_0@.len() == tv@.len() - 1,
        r is Ok ==> (forall|i: int|
            0 <= i < r->Ok_0@.len() ==> c_str_of(r->Ok_0@[i]@) == tv@[i]->0@),
        r is Err ==> r->Err_0 == EncodingError::InvalidUtf8,
{
    let ghost orig = tv@;
    let mut rest = tv;
    let mut out: Vec<String> = Vec::new();
    while rest.len() > 1
        invariant
            orig == tv@,
            c_trace_wf(orig),
            rest@.len() >= 1,
            out@.len() + rest@.len() == orig.len(),
            rest@ == orig.subrange(out@.len() as int, orig.len() as int),
            forall|j: int|
                0 <= j < out@.len() ==> c_str_of(out@[j]@) == orig[j]->0@ && buf_decodable(
                    orig[j]->0@,
                ),
        decreases rest@.len(),
    {
        let ghost k = out@.len() as int;
        let entry = rest.remove(0);
        proof {
            assert(entry == orig[k]);
            assert(rest@ =~= orig.subrange(k + 1, orig.len() as int));
        }
        let buf = match entry {
            Some(b) => b,
            None => {
                proof {
                    assert(false);
                }
                return Err(EncodingError::InvalidUtf8);
            },
        };
        match decode_c_string(buf) {
            Ok(s) => out.push(s),
            Err(e) => {
                proof {
                    assert(0 <= k < orig.len() - 1);
                    assert(!buf_decodable(orig[k]->0@));
                    assert(!trace_bufs_decodable(orig));
                }
                return Err(e);
            },
        }
    }
    proof {
        assert(trace_bufs_decodable(orig));
    }
    Ok(out)
}

/// Read an engine-shaped position back into the native form.
pub fn decode_position(cp: Option<CErrorPosition>) -> (r: Result<ErrorPosition, EncodingError>)
    requires
        cp is Some ==> c_position_wf(cp->0),
    ensures
        r is Ok <==> (cp is Some && cp->0.filepath is Some ==> buf_decodable(cp->0.filepath->0@)),
        r is Ok ==> position_decodes_to(cp, r->Ok_0),
        r is Err ==> r->Err_0 == EncodingError::InvalidUtf8,
{
    match cp {
        None => Ok(ErrorPosition::absent()),
        Some(c) => {
            let filepath = match c.filepath {
                Some(fb) => match decode_c_string(fb) {
                    Ok(s) => Some(s),
                    Err(e) => {
                        return Err(e);
                    },
                },
                None => None,
            };
            Ok(ErrorPosition { filepath, index: c.index, line: c.line, col: c.col })
        },
    }
}

/// The decode half of the decode-then-free protocol: deep-copy every field
/// of an engine-shaped error snapshot into natively owned data, each
/// optional component honored independently. The snapshot holds plain
/// values only, so nothing engine-owned is ever read here; the caller frees
/// the engine's allocation only after this returns.
pub fn decode_error(c: CValidationError) -> (r: Result<ValidationError, EncodingError>)
    requires
        c_error_wf(c),
    ensures
        r is Ok <==> error_decodable(c),
        r is Ok ==> error_decodes_to(c, r->Ok_0),
        r is Err ==> r->Err_0 == EncodingError::InvalidUtf8,
{
    let reported_by = match decode_c_string(c.reported_by) {
        Ok(s) => s,
        Err(e) => {
            return Err(e);
        },
    };
    let kind = match decode_c_string(c.kind) {
        Ok(s) => s,
        Err(e) => {
            return Err(e);
        },
    };
    let title = match decode_c_string(c.title) {
        Ok(s) => s,
        Err(e) => {
            return Err(e);
        },
    };
    let detail = match decode_c_string(c.detail) {
        Ok(s) => s,
        Err(e) => {
            return Err(e);
        },
    };
    let position = match decode_position(c.position) {
        Ok(p) => p,
        Err(e) => {
            return Err(e);
        },
    };
    let trace = match c.trace {
        Some(tv) => match decode_trace(tv) {
            Ok(t) => t,
            Err(e) => {
                return Err(e);
            },
        },
        None => Vec::new(),
    };
    Ok(ValidationError { reported_by, kind, code: c.code, title, detail, position, trace })
}

} // verus!
