//! The lookups of one block by its hash and of one transaction by its id.
//!
//! Each is two steps: the request names the call to make, or answers at
//! once; the node's outcome then gives the answer. Any failure of the call
//! is answered with a fixed text: what went wrong stays out of the reply.
use vstd::prelude::*;
use serde_json::Value;
use crate::reply::{HttpReply, ReplyBody, Step, is_text_reply};
use crate::rpc::{RpcCall, RpcError, RpcParam, is_call, text_param};

verus! {

pub open spec fn is_hex_digit(c: char) -> bool {
    ('0' <= c && c <= '9') || ('a' <= c && c <= 'f') || ('A' <= c && c <= 'F')
}

/// The syntax of a block hash: 64 hexadecimal digits, in either case.
pub open spec fn is_block_id(s: Seq<char>) -> bool {
    s.len() == 64 && forall|i: int| 0 <= i < s.len() ==> #[trigger] is_hex_digit(s[i])
}

pub open spec fn lower_digit(c: char) -> char {
    if c == 'A' {
        'a'
    } else if c == 'B' {
        'b'
    } else if c == 'C' {
        'c'
    } else if c == 'D' {
        'd'
    } else if c == 'E' {
        'e'
    } else if c == 'F' {
        'f'
    } else {
        c
    }
}

/// A block hash written in lower case, digits in the same order.
pub open spec fn lower_hex(s: Seq<char>) -> Seq<char> {
    s.map_values(|c: char| lower_digit(c))
}

/// Relies on bitcoin's `BlockHash`: its `FromStr` takes exactly 64
/// hexadecimal digits of either case, and its `Display` writes the hash back
/// as lower-case digits in the order they were read.
#[verifier::external_body]
fn canonical_block_hash(s: &str) -> (r: Option<String>)
    ensures
        r is Some <==> is_block_id(s@),
        r matches Some(t) ==> t@ == lower_hex(s@),
{
    match <bitcoin::BlockHash as std::str::FromStr>::from_str(s) {
        Ok(h) => Some(h.to_string()),
        Err(_) => None,
    }
}

/// The first step of a block lookup: an id that is not a block hash is
/// answered 400 at once, with no call to the node; a block hash asks for
/// `getblock` with the hash, in lower case, as its one parameter.
pub fn block_lookup(id: &str) -> (r: Step)
    ensures
        !is_block_id(id@) <==> r is Reply,
        r matches Step::Reply(reply) ==> is_text_reply(reply, 400, "Invalid block hash"@),
        r matches Step::Call(c) ==> (is_call(c, "getblock"@) && c.params@.len() == 1
            && text_param(c.params@[0], lower_hex(id@))),
{
    match canonical_block_hash(id) {
        None => Step::Reply(
            HttpReply { status: 400, body: ReplyBody::Text("Invalid block hash".to_owned()) },
        ),
        Some(hash) => {
            let mut params: Vec<RpcParam> = Vec::new();
            params.push(RpcParam::Text(hash));
            Step::Call(RpcCall { method: "getblock".to_owned(), params })
        },
    }
}

/// The answer to a block lookup: the node's block detail as it came, or a
/// fixed 500 text whatever the error.
pub fn block_reply(outcome: Result<Value, RpcError>) -> (r: HttpReply)
    ensures
        match outcome {
            Ok(v) => r == (HttpReply { status: 200, body: ReplyBody::Json(v) }),
            Err(_) => is_text_reply(r, 500, "Failed to retrieve block information"@),
        },
{
    match outcome {
        Ok(v) => HttpReply { status: 200, body: ReplyBody::Json(v) },
        Err(_) => HttpReply {
            status: 500,
            body: ReplyBody::Text("Failed to retrieve block information".to_owned()),
        },
    }
}

/// The call of a transaction lookup: `getrawtransaction` with the id as it
/// was given and the verbose flag set. The id's syntax is left to the node.
pub fn transaction_lookup(txid: &str) -> (r: RpcCall)
    ensures
        is_call(r, "getrawtransaction"@),
        r.params@.len() == 2,
        text_param(r.params@[0], txid@),
        r.params@[1] == RpcParam::Flag(true),
{
    let mut params: Vec<RpcParam> = Vec::new();
    params.push(RpcParam::Text(txid.to_owned()));
    params.push(RpcParam::Flag(true));
    RpcCall { method: "getrawtransaction".to_owned(), params }
}

/// The answer to a transaction lookup: the node's transaction detail as it
/// came, or a fixed 500 text whatever the error.
pub fn transaction_reply(outcome: Result<Value, RpcError>) -> (r: HttpReply)
    ensures
        match outcome {
            Ok(v) => r == (HttpReply { status: 200, body: ReplyBody::Json(v) }),
            Err(_) => is_text_reply(r, 500, "Failed to retrieve transaction information"@),
        },
{
    match outcome {
        Ok(v) => HttpReply { status: 200, body: ReplyBody::Json(v) },
        Err(_) => HttpReply {
            status: 500,
            body: ReplyBody::Text("Failed to retrieve transaction information".to_owned()),
        },
    }
}

} // verus!
