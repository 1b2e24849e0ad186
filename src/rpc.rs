//! The JSON-RPC client: what goes out to the node, and what its answer means.
//!
//! A call is made in two steps around the network. The caller sends the
//! request that `prepare` builds and hands the delivery to `judge_delivery`;
//! where that asks for it, the caller decodes the body as an outcome and
//! hands the decoding to `judge_outcome`.
use vstd::prelude::*;
use serde_json::Value;
use vstd::string::to_string_from_display_ensures;

verus! {

/// Where the node listens and how to sign in: fixed for the life of the
/// process and only ever read.
pub struct RpcEndpoint {
    url: String,
    user: String,
    pass: String,
}

impl RpcEndpoint {
    pub closed spec fn url_spec(&self) -> Seq<char> {
        self.url@
    }

    pub closed spec fn user_spec(&self) -> Seq<char> {
        self.user@
    }

    pub closed spec fn pass_spec(&self) -> Seq<char> {
        self.pass@
    }

    pub fn new(url: String, user: String, pass: String) -> (r: RpcEndpoint)
        ensures
            r.url_spec() == url@,
            r.user_spec() == user@,
            r.pass_spec() == pass@,
    {
        RpcEndpoint { url, user, pass }
    }

    pub fn url(&self) -> (r: &str)
        ensures
            r@ == self.url_spec(),
    {
        self.url.as_str()
    }

    pub fn user(&self) -> (r: &str)
        ensures
            r@ == self.user_spec(),
    {
        self.user.as_str()
    }

    pub fn pass(&self) -> (r: &str)
        ensures
            r@ == self.pass_spec(),
    {
        self.pass.as_str()
    }
}

/// One positional parameter of a call.
pub enum RpcParam {
    Text(String),
    Int(i64),
    Flag(bool),
    /// A value that an earlier answer of the node gave, passed back as it is.
    Json(Value),
}

/// A method of the node with its parameters, in order.
pub struct RpcCall {
    pub method: String,
    pub params: Vec<RpcParam>,
}

/// The JSON-RPC request body.
pub struct RpcEnvelope {
    pub jsonrpc: String,
    pub id: String,
    pub method: String,
    pub params: Vec<RpcParam>,
}

/// The one HTTP POST that makes a call: sent to `url`, signed with Basic
/// credentials, with the envelope as its JSON body.
pub struct RpcRequest {
    pub url: String,
    pub user: String,
    pub pass: String,
    pub envelope: RpcEnvelope,
}

/// The node's answer, as decoded from the response body.
pub struct RpcOutcome {
    pub result: Option<Value>,
    pub error: Option<Value>,
}

/// Why a call gave no result.
pub enum RpcError {
    /// The node could not be reached, or the answer could not be read.
    Connection(String),
    /// The node answered with a status other than 200: the status and the body.
    HttpStatus(u16, String),
    /// The body is not a JSON-RPC outcome: why, and the body.
    Parse(String, String),
    /// The node answered without a result: its error, as text.
    RpcLogic(String),
}

/// What the transport delivered for one request.
pub enum Delivery {
    /// The request could not be sent, or no answer came: why.
    Unreachable(String),
    /// An answer with its status, and its body or why the body could not be read.
    Answered(u16, Result<String, String>),
}

/// What to do with a delivery.
pub enum Verdict {
    /// The call failed.
    Failed(RpcError),
    /// Decode this body as an outcome and hand it to `judge_outcome`.
    Decode(String),
}

pub open spec fn is_call(c: RpcCall, method: Seq<char>) -> bool {
    c.method@ == method
}

pub open spec fn text_param(p: RpcParam, t: Seq<char>) -> bool {
    p matches RpcParam::Text(s) && s@ == t
}

/// The request for `call` to the node at `endpoint`: version "2.0" and the
/// fixed id "1", the endpoint's address and credentials copied.
pub fn prepare(endpoint: &RpcEndpoint, call: RpcCall) -> (r: RpcRequest)
    ensures
        r.url@ == endpoint.url_spec(),
        r.user@ == endpoint.user_spec(),
        r.pass@ == endpoint.pass_spec(),
        r.envelope.jsonrpc@ == "2.0"@,
        r.envelope.id@ == "1"@,
        r.envelope.method == call.method,
        r.envelope.params == call.params,
{
    let envelope = RpcEnvelope {
        jsonrpc: "2.0".to_owned(),
        id: "1".to_owned(),
        method: call.method,
        params: call.params,
    };
    RpcRequest {
        url: endpoint.url.clone(),
        user: endpoint.user.clone(),
        pass: endpoint.pass.clone(),
        envelope,
    }
}

/// Sorts out a delivery: a failed send is a connection error, a status
/// other than 200 an HTTP status error with the body or, where it could not
/// be read, a placeholder; a 200 whose body was read asks for decoding.
pub fn judge_delivery(d: Delivery) -> (r: Verdict)
    ensures
        match d {
            Delivery::Unreachable(why) => r == Verdict::Failed(RpcError::Connection(why)),
            Delivery::Answered(status, body) => if status != 200 {
                match body {
                    Ok(text) => r == Verdict::Failed(RpcError::HttpStatus(status, text)),
                    Err(_) => r matches Verdict::Failed(RpcError::HttpStatus(s, t))
                        && s == status && t@ == "Unable to read error response"@,
                }
            } else {
                match body {
                    Ok(text) => r == Verdict::Decode(text),
                    Err(why) => r == Verdict::Failed(RpcError::Connection(why)),
                }
            },
        },
{
    match d {
        Delivery::Unreachable(why) => Verdict::Failed(RpcError::Connection(why)),
        Delivery::Answered(status, body) => {
            if status != 200 {
                match body {
                    Ok(text) => Verdict::Failed(RpcError::HttpStatus(status, text)),
                    Err(_) => Verdict::Failed(
                        RpcError::HttpStatus(status, "Unable to read error response".to_owned()),
                    ),
                }
            } else {
                match body {
                    Ok(text) => Verdict::Decode(text),
                    Err(why) => Verdict::Failed(RpcError::Connection(why)),
                }
            }
        },
    }
}

/// What a decoded body means: a body that did not decode is a parse error
/// with the body; a result, where there is one, is the answer whether or
/// not an error came beside it; else the node's error as serde_json writes
/// it out, or "Unknown error" where it gave none.
pub fn judge_outcome(body: String, decoded: Result<RpcOutcome, String>) -> (r: Result<Value, RpcError>)
    ensures
        match decoded {
            Err(why) => r == Err::<Value, RpcError>(RpcError::Parse(why, body)),
            Ok(outcome) => match outcome.result {
                Some(v) => r == Ok::<Value, RpcError>(v),
                None => r matches Err(RpcError::RpcLogic(msg)) && match outcome.error {
                    Some(e) => to_string_from_display_ensures::<Value>(&e, msg),
                    None => msg@ == "Unknown error"@,
                },
            },
        },
{
    match decoded {
        Err(why) => Err(RpcError::Parse(why, body)),
        Ok(outcome) => match outcome.result {
            Some(v) => Ok(v),
            None => match outcome.error {
                Some(e) => Err(RpcError::RpcLogic(e.to_string())),
                None => Err(RpcError::RpcLogic("Unknown error".to_owned())),
            },
        },
    }
}

} // verus!
