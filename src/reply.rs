//! Replies to the gateway's own HTTP clients.
use vstd::prelude::*;
use serde_json::Value;
use crate::rpc::RpcCall;

verus! {

pub enum ReplyBody {
    /// Plain text.
    Text(String),
    /// One JSON value, sent as it came from the node.
    Json(Value),
    /// A JSON array of values, each sent as it came from the node.
    JsonList(Vec<Value>),
}

pub struct HttpReply {
    pub status: u16,
    pub body: ReplyBody,
}

/// What a request handler asks for next.
pub enum Step {
    /// Make this call to the node.
    Call(RpcCall),
    /// Answer the client with this, and call nothing more.
    Reply(HttpReply),
}

pub open spec fn is_text_reply(r: HttpReply, status: u16, text: Seq<char>) -> bool {
    r.status == status && (r.body matches ReplyBody::Text(t) && t@ == text)
}

} // verus!
