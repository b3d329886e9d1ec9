//! The request sent for a chosen RPC, and what is made of the response.

use vstd::prelude::*;
use crate::json::{json_quoted, quote_json};
use crate::text::{contains_seq, contains_text};

verus! {

/// The endpoint for `rpc`: `{base}/v2/rpc/{rpc}?http_key={key}`, with no
/// component percent-encoded.
pub open spec fn rpc_url_of(base: Seq<char>, rpc: Seq<char>, key: Seq<char>) -> Seq<char> {
    base + "/v2/rpc/"@ + rpc + "?http_key="@ + key
}

/// The request body `{"id":<rpc>,"payload":<payload>}`, each field a JSON
/// string: the payload's JSON text travels as a string, not as a nested value.
pub open spec fn request_body_of(rpc: Seq<char>, payload: Seq<char>) -> Seq<char> {
    "{\"id\":"@ + json_quoted(rpc) + ",\"payload\":"@ + json_quoted(payload) + "}"@
}

/// A response counts as a success when its status is in the 2xx range and its
/// content type mentions `application/json`.
pub open spec fn is_json_success_of(status: u16, content_type: Seq<char>) -> bool {
    200 <= status <= 299 && contains_seq(content_type, "application/json"@)
}

/// Where the log of a successful call goes: `logs/{timestamp}_{rpc}.json`.
pub open spec fn log_path_of(timestamp: Seq<char>, rpc: Seq<char>) -> Seq<char> {
    "logs/"@ + timestamp + "_"@ + rpc + ".json"@
}

/// The logged response envelope `{"payload": <payload>}`, pretty-printed with
/// an indent of two spaces.
pub open spec fn log_text_of(payload: Seq<char>) -> Seq<char> {
    "{\n  \"payload\": "@ + json_quoted(payload) + "\n}"@
}

/// The endpoint URL for `rpc` on the server at `base`.
pub fn rpc_url(base: &str, rpc: &str, key: &str) -> (r: String)
    ensures
        r@ == rpc_url_of(base@, rpc@, key@),
{
    let mut u = String::from_str(base);
    u.append("/v2/rpc/");
    u.append(rpc);
    u.append("?http_key=");
    u.append(key);
    u
}

/// The JSON body of the request for `rpc` with the payload text `payload`.
pub fn request_body(rpc: &str, payload: &str) -> (r: String)
    ensures
        r@ == request_body_of(rpc@, payload@),
{
    let id = quote_json(rpc).unwrap();
    let p = quote_json(payload).unwrap();
    let mut b = String::from_str("{\"id\":");
    b.append(id.as_str());
    b.append(",\"payload\":");
    b.append(p.as_str());
    b.append("}");
    b
}

/// Whether a response with this status and content type is a success.
pub fn is_json_success(status: u16, content_type: &str) -> (r: bool)
    ensures
        r == is_json_success_of(status, content_type@),
{
    200 <= status && status <= 299 && contains_text(content_type, "application/json")
}

/// The file that logs a successful call of `rpc` made at `timestamp`.
pub fn log_path(timestamp: &str, rpc: &str) -> (r: String)
    ensures
        r@ == log_path_of(timestamp@, rpc@),
{
    let mut p = String::from_str("logs/");
    p.append(timestamp);
    p.append("_");
    p.append(rpc);
    p.append(".json");
    p
}

/// The logged text of a successful response whose payload is `payload`.
pub fn log_text(payload: &str) -> (r: String)
    ensures
        r@ == log_text_of(payload@),
{
    let q = quote_json(payload).unwrap();
    let mut t = String::from_str("{\n  \"payload\": ");
    t.append(q.as_str());
    t.append("\n}");
    t
}

} // verus!
