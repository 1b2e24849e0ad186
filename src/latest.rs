//! The window of the latest blocks.
//!
//! One request walks a short chain of calls: `getblockcount`, then for each
//! index `i` of the window, from 0 up, `getblockhash` of height `count - i`
//! and `getblock` of the hash that came back. A failed call drops its index
//! and the walk goes on; only a failed block count fails the request. The
//! blocks come back tip first, each as the node gave it.
use vstd::prelude::*;
use serde_json::Value;
use crate::reply::{HttpReply, ReplyBody, is_text_reply};
use crate::rpc::{RpcCall, RpcError, RpcParam, is_call};

verus! {

/// How many heights, down from the tip, one request tries.
pub const WINDOW: u64 = 10;

/// Which answer the walk waits for.
pub enum Phase {
    AwaitCount,
    /// The hash of the block at index `i`, height `count - i`.
    AwaitHash(u64),
    /// The detail of the block at index `i`.
    AwaitBlock(u64),
}

/// One request's walk down the chain.
pub struct LatestBlocks {
    phase: Phase,
    count: i64,
    blocks: Vec<Value>,
    heights: Ghost<Seq<int>>,
}

/// What comes after an answer: the next call, or the reply to the client.
pub enum Progress {
    Continue(LatestBlocks, RpcCall),
    Finish(HttpReply),
}

/// `blocks` were fetched at `heights`, one height each, strictly falling,
/// all among the first `j` indices below the tip `count`.
pub open spec fn is_window(blocks: Seq<Value>, heights: Seq<int>, count: int, j: int) -> bool {
    &&& blocks.len() == heights.len()
    &&& heights.len() <= j
    &&& forall|a: int, b: int| 0 <= a < b < heights.len() ==> heights[a] > heights[b]
    &&& forall|k: int|
        0 <= k < heights.len() ==> 0 <= #[trigger] heights[k] && count - j < heights[k] <= count
}

pub open spec fn is_failure_reply(r: HttpReply) -> bool {
    is_text_reply(r, 500, "Failed to retrieve latest blocks"@)
}

/// Where the walk goes after the indices below `j` are done, with `blocks`
/// fetched at `heights`: to the hash at index `j` where that index is in
/// the window and its height is not below zero, else to a 200 reply with
/// the blocks fetched.
pub open spec fn resumed(r: Progress, count: int, blocks: Seq<Value>, heights: Seq<int>, j: int) -> bool {
    if j < WINDOW && j <= count {
        r matches Progress::Continue(s, c) && s.wf() && s.phase_spec() == Phase::AwaitHash(
            j as u64,
        ) && s.count_spec() == count && s.blocks_spec() == blocks && s.heights_spec() == heights
            && is_call(c, "getblockhash"@) && c.params@.len() == 1 && c.params@[0]
            == RpcParam::Int((count - j) as i64)
    } else {
        r matches Progress::Finish(reply) && reply.status == 200 && (reply.body matches ReplyBody::JsonList(
            v,
        ) && v@ == blocks)
    }
}

/// Where the walk goes once the block count is known: a count that is not
/// an integer fails the request; else the walk starts at index 0.
pub open spec fn counted(r: Progress, count: Option<i64>) -> bool {
    match count {
        None => r matches Progress::Finish(reply) && is_failure_reply(reply),
        Some(n) => resumed(r, n as int, Seq::empty(), Seq::empty(), 0),
    }
}

/// The walk from the block count on, for a count that the caller has read
/// from the node's answer (`None` where the answer was not an integer).
pub fn from_block_count(count: Option<i64>) -> (r: Progress)
    ensures
        counted(r, count),
{
    match count {
        None => Progress::Finish(
            HttpReply {
                status: 500,
                body: ReplyBody::Text("Failed to retrieve latest blocks".to_owned()),
            },
        ),
        Some(n) => resume(n, Vec::new(), Ghost(Seq::empty()), 0),
    }
}

fn resume(count: i64, blocks: Vec<Value>, heights: Ghost<Seq<int>>, j: u64) -> (r: Progress)
    requires
        j <= WINDOW,
        is_window(blocks@, heights@, count as int, j as int),
    ensures
        resumed(r, count as int, blocks@, heights@, j as int),
{
    if j < WINDOW && j as i64 <= count {
        let mut params: Vec<RpcParam> = Vec::new();
        params.push(RpcParam::Int(count - j as i64));
        let s = LatestBlocks { phase: Phase::AwaitHash(j), count, blocks, heights };
        Progress::Continue(s, RpcCall { method: "getblockhash".to_owned(), params })
    } else {
        Progress::Finish(HttpReply { status: 200, body: ReplyBody::JsonList(blocks) })
    }
}

impl LatestBlocks {
    pub closed spec fn phase_spec(&self) -> Phase {
        self.phase
    }

    /// The block count, once it has come.
    pub closed spec fn count_spec(&self) -> int {
        self.count as int
    }

    /// The blocks fetched so far, in the order they came.
    pub closed spec fn blocks_spec(&self) -> Seq<Value> {
        self.blocks@
    }

    /// The height at which each block so far was fetched.
    pub closed spec fn heights_spec(&self) -> Seq<int> {
        self.heights@
    }

    pub open spec fn wf(&self) -> bool {
        match self.phase_spec() {
            Phase::AwaitCount => self.blocks_spec().len() == 0 && self.heights_spec().len() == 0,
            Phase::AwaitHash(i) => i < WINDOW && i <= self.count_spec() && is_window(
                self.blocks_spec(),
                self.heights_spec(),
                self.count_spec(),
                i as int,
            ),
            Phase::AwaitBlock(i) => i < WINDOW && i <= self.count_spec() && is_window(
                self.blocks_spec(),
                self.heights_spec(),
                self.count_spec(),
                i as int,
            ),
        }
    }

    /// How many answers the walk may still wait for, at most.
    pub open spec fn remaining(&self) -> int {
        match self.phase_spec() {
            Phase::AwaitCount => 2 * WINDOW + 1,
            Phase::AwaitHash(i) => 2 * (WINDOW - i),
            Phase::AwaitBlock(i) => 2 * (WINDOW - i) - 1,
        }
    }

    /// A new walk, and its first call: `getblockcount`, with no parameters.
    pub fn start() -> (r: (LatestBlocks, RpcCall))
        ensures
            r.0.wf(),
            r.0.phase_spec() == Phase::AwaitCount,
            is_call(r.1, "getblockcount"@),
            r.1.params@.len() == 0,
    {
        let s = LatestBlocks {
            phase: Phase::AwaitCount,
            count: 0,
            blocks: Vec::new(),
            heights: Ghost(Seq::empty()),
        };
        (s, RpcCall { method: "getblockcount".to_owned(), params: Vec::new() })
    }

    /// Takes the answer to the call the walk last asked for.
    pub fn advance(self, outcome: Result<Value, RpcError>) -> (r: Progress)
        requires
            self.wf(),
        ensures
            r matches Progress::Continue(s, _) ==> s.wf() && s.remaining() < self.remaining(),
            r matches Progress::Finish(reply) ==> (reply.body matches ReplyBody::JsonList(v)
                ==> v@.len() <= WINDOW),
            match self.phase_spec() {
                Phase::AwaitCount => match outcome {
                    Err(_) => r matches Progress::Finish(reply) && is_failure_reply(reply),
                    Ok(_) => exists|n: Option<i64>| #[trigger] counted(r, n),
                },
                Phase::AwaitHash(i) => match outcome {
                    Err(_) => resumed(
                        r,
                        self.count_spec(),
                        self.blocks_spec(),
                        self.heights_spec(),
                        i + 1,
                    ),
                    Ok(h) => r matches Progress::Continue(s, c) && s.phase_spec()
                        == Phase::AwaitBlock(i) && s.count_spec() == self.count_spec()
                        && s.blocks_spec() == self.blocks_spec() && s.heights_spec()
                        == self.heights_spec() && is_call(c, "getblock"@) && c.params@.len()
                        == 1 && c.params@[0] == RpcParam::Json(h),
                },
                Phase::AwaitBlock(i) => match outcome {
                    Err(_) => resumed(
                        r,
                        self.count_spec(),
                        self.blocks_spec(),
                        self.heights_spec(),
                        i + 1,
                    ),
                    Ok(b) => resumed(
                        r,
                        self.count_spec(),
                        self.blocks_spec().push(b),
                        self.heights_spec().push(self.count_spec() - i),
                        i + 1,
                    ),
                },
            },
    {
        let LatestBlocks { phase, count, blocks, heights } = self;
        match phase {
            Phase::AwaitCount => match outcome {
                Err(_) => Progress::Finish(
                    HttpReply {
                        status: 500,
                        body: ReplyBody::Text("Failed to retrieve latest blocks".to_owned()),
                    },
                ),
                Ok(v) => {
                    let n = v.as_i64();
                    let r = from_block_count(n);
                    assert(counted(r, n));
                    r
                },
            },
            Phase::AwaitHash(i) => match outcome {
                Err(_) => resume(count, blocks, heights, i + 1),
                Ok(h) => {
                    let mut params: Vec<RpcParam> = Vec::new();
                    params.push(RpcParam::Json(h));
                    let s = LatestBlocks { phase: Phase::AwaitBlock(i), count, blocks, heights };
                    Progress::Continue(s, RpcCall { method: "getblock".to_owned(), params })
                },
            },
            Phase::AwaitBlock(i) => match outcome {
                Err(_) => resume(count, blocks, heights, i + 1),
                Ok(b) => {
                    let mut blocks = blocks;
                    blocks.push(b);
                    let heights = Ghost(heights@.push(count - i));
                    resume(count, blocks, heights, i + 1)
                },
            },
        }
    }
}

/// A window of the latest blocks holds at most ten blocks, fetched at
/// heights that fall strictly from the tip down, none below zero, so no
/// height comes twice.
pub proof fn lemma_window_order(s: LatestBlocks)
    requires
        s.wf(),
    ensures
        s.blocks_spec().len() == s.heights_spec().len(),
        s.blocks_spec().len() <= WINDOW,
        forall|a: int, b: int|
            0 <= a < b < s.heights_spec().len() ==> s.heights_spec()[a] > s.heights_spec()[b],
        forall|k: int|
            0 <= k < s.heights_spec().len() ==> 0 <= #[trigger] s.heights_spec()[k]
                && s.count_spec() - WINDOW < s.heights_spec()[k] <= s.count_spec(),
{
}

} // verus!
