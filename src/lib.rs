//! A JSON-RPC gateway to a blockchain node: the RPC client, the lookups of
//! one block or one transaction, and the window of the latest blocks.
//!
//! Every network exchange is left to the caller. The library says which
//! call to make next and what the answer means; the caller carries calls to
//! the node and replies to the HTTP client.
use vstd::prelude::*;

pub mod json;
pub mod rpc;
pub mod reply;
pub mod lookup;
pub mod latest;

verus! {
} // verus!
