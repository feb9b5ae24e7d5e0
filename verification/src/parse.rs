//! Decode boundary: one protocol line into a `Request`. The JSON reading
//! is serde_json's and is a function of the line alone, so its outcome
//! carries a name, `decoded_request`, that the dispatch contracts speak
//! of: the request's three members — a string `method`, an `id` that is
//! absent, null or an unsigned integer, and `params.index` when it is
//! integral — or the text describing the decode problem.
use vstd::prelude::*;
use crate::protocol::Request;

verus! {

/// What decoding a protocol line yields: the correlation token, the
/// method name and the optional `params.index` of a well-shaped request,
/// or the text describing the decode problem. Decoding is deterministic
/// in the line; this name stands for its result.
pub uninterp spec fn decoded_request(line: Seq<char>) -> Result<
    (Option<u64>, Seq<char>, Option<u64>),
    Seq<char>,
>;

/// Relies on serde_json::from_str and serde_json::Value's accessors
/// (get, is_null, as_u64, as_str): parses the line and moves the
/// request's three members out — or, for a line without that shape,
/// reports the decode problem. The result is `decoded_request` of the
/// line.
#[verifier::external_body]
pub(crate) fn decode_line(line: &str) -> (r: Result<Request, String>)
    ensures
        match r {
            Ok(req) => decoded_request(line@) == Ok::<
                (Option<u64>, Seq<char>, Option<u64>),
                Seq<char>,
            >((req.id, req.method@, req.params_index)),
            Err(e) => decoded_request(line@) == Err::<
                (Option<u64>, Seq<char>, Option<u64>),
                Seq<char>,
            >(e@),
        },
{
    let v: serde_json::Value = serde_json::from_str(line).map_err(|e| e.to_string())?;
    let method = match v.get("method") {
        Some(m) => m.as_str().ok_or("field `method` is not a string")?.to_string(),
        None => return Err("missing field `method`".to_string()),
    };
    let id = match v.get("id") {
        Some(i) => {
            if i.is_null() { None } else {
                Some(i.as_u64().ok_or("field `id` is not an unsigned integer")?)
            }
        },
        None => None,
    };
    let params_index = v.get("params").and_then(|p| p.get("index")).and_then(|i| i.as_u64());
    Ok(Request { id, method, params_index })
}

} // verus!
