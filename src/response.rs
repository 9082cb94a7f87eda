//! Collecting a response body and decoding it as JSON.

use vstd::prelude::*;

verus! {

#[verifier::external_type_specification]
#[verifier::external_body]
pub struct ExValue(serde_json::Value);

#[verifier::external_type_specification]
#[verifier::external_body]
pub struct ExJsonError(serde_json::Error);

/// Why a query gave no JSON value.
#[derive(Debug)]
pub enum QueryError {
    /// The HTTP transfer failed (DNS, connection, TLS or read failure).
    Transport(curl::Error),
    /// The response body is not a JSON document.
    Decode(serde_json::Error),
}

/// Whether `serde_json::from_slice` accepts `bytes` as a `serde_json::Value`.
pub uninterp spec fn is_json(bytes: Seq<u8>) -> bool;

/// Relies on serde_json::from_slice into a `serde_json::Value`: whether it
/// succeeds depends on the bytes alone, and the empty input ends before a
/// value and fails.
#[verifier::external_body]
fn parse_json(bytes: &[u8]) -> (r: Result<serde_json::Value, serde_json::Error>)
    ensures
        r is Ok <==> is_json(bytes@),
        bytes@.len() == 0 ==> r is Err,
{
    serde_json::from_slice(bytes)
}

/// Appends one chunk of a response to the body collected so far, and
/// returns how many bytes were taken, as a transfer's write callback does.
pub fn append_chunk(buf: &mut Vec<u8>, data: &[u8]) -> (n: usize)
    ensures
        final(buf)@ == old(buf)@ + data@,
        n == data@.len(),
{
    let mut i: usize = 0;
    while i < data.len()
        invariant
            i <= data@.len(),
            buf@ == old(buf)@ + data@.take(i as int),
        decreases data@.len() - i,
    {
        buf.push(data[i]);
        assert(data@.take(i + 1) =~= data@.take(i as int).push(data@[i as int]));
        i = i + 1;
    }
    assert(data@.take(i as int) =~= data@);
    data.len()
}

/// Decodes a whole response body as JSON, whatever the HTTP status was.
pub fn decode_body(body: &[u8]) -> (r: Result<serde_json::Value, QueryError>)
    ensures
        r is Ok <==> is_json(body@),
        r is Err ==> r->Err_0 is Decode,
        body@.len() == 0 ==> r is Err,
{
    match parse_json(body) {
        Ok(value) => Ok(value),
        Err(e) => Err(QueryError::Decode(e)),
    }
}

/// The result of a query, given the outcome of its transfer: the transfer's
/// own error when it failed, else the decoded body.
pub fn query_result(transfer: Result<Vec<u8>, curl::Error>) -> (r: Result<
    serde_json::Value,
    QueryError,
>)
    ensures
        match transfer {
            Err(e) => r == Err::<serde_json::Value, QueryError>(QueryError::Transport(e)),
            Ok(body) => {
                &&& r is Ok <==> is_json(body@)
                &&& r is Err ==> r->Err_0 is Decode
                &&& body@.len() == 0 ==> r is Err
            },
        },
{
    match transfer {
        Err(e) => Err(QueryError::Transport(e)),
        Ok(body) => decode_body(body.as_slice()),
    }
}

} // verus!
