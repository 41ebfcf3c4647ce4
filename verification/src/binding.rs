//! The verified half of the engine binding: everything a validation or
//! serialization call needs is marshaled here into engine-bound plain
//! values before the call, and everything the engine hands back is read
//! here from plain-value snapshots after it.
//!
//! The unverified remainder — loading the shared object, resolving the
//! entry points, the calls themselves, and copying engine-owned memory into
//! the snapshots consumed here — lives outside this crate and touches no
//! logic: it converts between these structures and raw pointers, one for
//! one.

use vstd::prelude::*;
use vstd::string::StringExecFns;
use crate::cstr::{c_bytes_of, c_str_of, str_encodable, encode_c_bytes, encode_c_string};
use crate::cerror::{
    CValidationError, c_error_wf, decode_error, encode_error, error_decodable, error_decodes_to,
    error_encodable, error_encoding_of,
};
use crate::errors::{EncodingError, InitError, ValidationError};
use crate::headers::{CHeaderBuf, Header, encode_headers, header_encodable, headers_encoded};

verus! {

/// The inputs of one request validation pass, every string and the body as
/// NUL-terminated buffers and the headers as the sentinel-terminated array.
pub struct CRequestCall {
    pub api_spec_path: Vec<u8>,
    pub method: Vec<u8>,
    pub uri: Vec<u8>,
    pub headers: Vec<Option<CHeaderBuf>>,
    pub body: Vec<u8>,
}

/// The inputs of one response validation pass: as for the request pass,
/// with the status code passed through as the engine's integer.
pub struct CResponseCall {
    pub api_spec_path: Vec<u8>,
    pub method: Vec<u8>,
    pub uri: Vec<u8>,
    pub status_code: i32,
    pub headers: Vec<Option<CHeaderBuf>>,
    pub body: Vec<u8>,
}

/// The inputs of one serialization call: the format tag and the re-marshaled
/// error.
pub struct CSerializeCall {
    pub format: Vec<u8>,
    pub error: CValidationError,
}

/// Every textual input of a validation pass can cross the boundary.
pub open spec fn call_encodable(
    api_spec_path: Seq<char>,
    method: Seq<char>,
    uri: Seq<char>,
    headers: Seq<Header>,
    body: Seq<u8>,
) -> bool {
    &&& str_encodable(api_spec_path)
    &&& str_encodable(method)
    &&& str_encodable(uri)
    &&& (forall|i: int| 0 <= i < headers.len() ==> header_encodable(headers[i]))
    &&& !body.contains(0u8)
}

/// Marshal the inputs of the request pass. Fails exactly when some input
/// holds an embedded NUL; on success every buffer is the NUL-terminated
/// image of its input and the header array carries its sentinel.
pub fn prepare_request_call(
    api_spec_path: &str,
    method: &str,
    uri: &str,
    headers: &Vec<Header>,
    body: &[u8],
) -> (r: Result<CRequestCall, EncodingError>)
    ensures
        r is Ok <==> call_encodable(api_spec_path@, method@, uri@, headers@, body@),
        r is Ok ==> {
            let c = r->Ok_0;
            &&& c.api_spec_path@ == c_str_of(api_spec_path@)
            &&& c.method@ == c_str_of(method@)
            &&& c.uri@ == c_str_of(uri@)
            &&& headers_encoded(c.headers@, headers@)
            &&& c.body@ == c_bytes_of(body@)
        },
        r is Err ==> r->Err_0 == EncodingError::EmbeddedNul,
{
    let c_path = match encode_c_string(api_spec_path) {
        Ok(b) => b,
        Err(e) => {
            return Err(e);
        },
    };
    let c_method = match encode_c_string(method) {
        Ok(b) => b,
        Err(e) => {
            return Err(e);
        },
    };
    let c_uri = match encode_c_string(uri) {
        Ok(b) => b,
        Err(e) => {
            return Err(e);
        },
    };
    let c_headers = match encode_headers(headers) {
        Ok(a) => a,
        Err(e) => {
            return Err(e);
        },
    };
    let c_body = match encode_c_bytes(body) {
        Ok(b) => b,
        Err(e) => {
            return Err(e);
        },
    };
    Ok(
        CRequestCall {
            api_spec_path: c_path,
            method: c_method,
            uri: c_uri,
            headers: c_headers,
            body: c_body,
        },
    )
}

/// Marshal the inputs of the response pass; the status code crosses the
/// boundary unchanged.
pub fn prepare_response_call(
    api_spec_path: &str,
    method: &str,
    uri: &str,
    status_code: i32,
    headers: &Vec<Header>,
    body: &[u8],
) -> (r: Result<CResponseCall, EncodingError>)
    ensures
        r is Ok <==> call_encodable(api_spec_path@, method@, uri@, headers@, body@),
        r is Ok ==> {
            let c = r->Ok_0;
            &&& c.api_spec_path@ == c_str_of(api_spec_path@)
            &&& c.method@ == c_str_of(method@)
            &&& c.uri@ == c_str_of(uri@)
            &&& c.status_code == status_code
            &&& headers_encoded(c.headers@, headers@)
            &&& c.body@ == c_bytes_of(body@)
        },
        r is Err ==> r->Err_0 == EncodingError::EmbeddedNul,
{
    let call = match prepare_request_call(api_spec_path, method, uri, headers, body) {
        Ok(c) => c,
        Err(e) => {
            return Err(e);
        },
    };
    Ok(
        CResponseCall {
            api_spec_path: call.api_spec_path,
            method: call.method,
            uri: call.uri,
            status_code,
            headers: call.headers,
            body: call.body,
        },
    )
}

/// Marshal the inputs of a serialization call: the format tag as a
/// NUL-terminated buffer and the error re-marshaled into engine shape.
pub fn prepare_serialize_call(format: &str, error: &ValidationError) -> (r: Result<
    CSerializeCall,
    EncodingError,
>)
    ensures
        r is Ok <==> str_encodable(format@) && error_encodable(*error),
        r is Ok ==> r->Ok_0.format@ == c_str_of(format@) && error_encoding_of(
            *error,
            r->Ok_0.error,
        ) && c_error_wf(r->Ok_0.error),
        r is Err ==> r->Err_0 == EncodingError::EmbeddedNul,
{
    let c_format = match encode_c_string(format) {
        Ok(b) => b,
        Err(e) => {
            return Err(e);
        },
    };
    let c_error = match encode_error(error) {
        Ok(c) => c,
        Err(e) => {
            return Err(e);
        },
    };
    Ok(CSerializeCall { format: c_format, error: c_error })
}

/// Read the engine's verdict from a validation pass: the engine returned
/// null for a message that meets the contract, or a snapshot of the error
/// structure it allocated. The snapshot is decoded into natively owned data
/// here; the caller releases the engine's allocation only afterwards.
pub fn interpret_validation_result(raw: Option<CValidationError>) -> (r: Result<
    Result<(), ValidationError>,
    EncodingError,
>)
    requires
        raw is Some ==> c_error_wf(raw->0),
    ensures
        raw is None ==> r is Ok && r->Ok_0 is Ok,
        raw is Some ==> (r is Ok <==> error_decodable(raw->0)),
        raw is Some && r is Ok ==> r->Ok_0 is Err && error_decodes_to(raw->0, r->Ok_0->Err_0),
        r is Err ==> r->Err_0 == EncodingError::InvalidUtf8,
{
    match raw {
        None => Ok(Ok(())),
        Some(c) => match decode_error(c) {
            Ok(e) => Ok(Err(e)),
            Err(enc) => Err(enc),
        },
    }
}

/// One entry-point lookup: a symbol's name and whether the loader resolved
/// it.
#[derive(Debug, Clone, PartialEq, Eq)]
pub struct SymbolLookup {
    pub name: String,
    pub found: bool,
}

/// Every required entry point was resolved.
pub open spec fn all_found(lookups: Seq<SymbolLookup>) -> bool {
    forall|i: int| 0 <= i < lookups.len() ==> lookups[i].found
}

/// The names of the five entry points the binding requires, in the order
/// they are resolved: the status probe, the request validator, the response
/// validator, the error deallocator, and the error serializer.
pub fn required_symbols() -> (r: Vec<String>)
    ensures
        r@.len() == 5,
        r@[0]@ == "JSightStat"@,
        r@[1]@ == "JSightValidateHttpRequest"@,
        r@[2]@ == "JSightValidateHttpResponse"@,
        r@[3]@ == "freeValidationError"@,
        r@[4]@ == "JSightSerializeError"@,
{
    let mut v: Vec<String> = Vec::new();
    v.push(String::from_str("JSightStat"));
    v.push(String::from_str("JSightValidateHttpRequest"));
    v.push(String::from_str("JSightValidateHttpResponse"));
    v.push(String::from_str("freeValidationError"));
    v.push(String::from_str("JSightSerializeError"));
    v
}

/// Confirm that every required entry point was resolved. Initialization may
/// proceed exactly when all were; otherwise the failure names the first
/// missing symbol, and the partially resolved table is never observable.
pub fn check_resolution(lookups: &Vec<SymbolLookup>) -> (r: Result<(), InitError>)
    ensures
        r is Ok <==> all_found(lookups@),
        r is Err ==> r->Err_0 is SymbolResolution,
        r is Err ==> exists|k: int|
            0 <= k < lookups@.len() && !lookups@[k].found && (forall|j: int|
                0 <= j < k ==> lookups@[j].found) && r->Err_0->0@ == lookups@[k].name@,
{
    let n = lookups.len();
    let mut i: usize = 0;
    while i < n
        invariant
            n == lookups@.len(),
            0 <= i <= n,
            forall|j: int| 0 <= j < i ==> lookups@[j].found,
        decreases n - i,
    {
        if !lookups[i].found {
            return Err(InitError::SymbolResolution(lookups[i].name.clone()));
        }
        i += 1;
    }
    Ok(())
}

} // verus!
