use block_explorer::latest::{from_block_count, LatestBlocks, Progress, WINDOW};
use block_explorer::reply::{HttpReply, ReplyBody};
use block_explorer::rpc::{RpcCall, RpcError, RpcParam};
use serde_json::Value;

struct Node {
    count: Result<Value, RpcError>,
    bad_hash_calls: Vec<usize>,
    bad_block_heights: Vec<i64>,
}

fn block_at(h: i64) -> Value {
    serde_json::from_str(&format!("{{\"height\":{},\"hash\":\"h{}\",\"tx\":[]}}", h, h)).unwrap()
}

fn err() -> RpcError {
    RpcError::RpcLogic("no".to_string())
}

fn walk(node: &Node) -> (HttpReply, Vec<String>) {
    let (mut s, mut call) = LatestBlocks::start();
    let mut log: Vec<String> = Vec::new();
    let mut hash_calls = 0usize;
    loop {
        let outcome = answer(node, &call, &mut hash_calls);
        log.push(describe(&call));
        match s.advance(outcome) {
            Progress::Continue(next, c) => {
                s = next;
                call = c;
            }
            Progress::Finish(r) => return (r, log),
        }
        assert!(log.len() <= 2 * WINDOW as usize + 1);
    }
}

fn answer(node: &Node, call: &RpcCall, hash_calls: &mut usize) -> Result<Value, RpcError> {
    match (call.method.as_str(), call.params.as_slice()) {
        ("getblockcount", []) => match &node.count {
            Ok(v) => Ok(v.clone()),
            Err(_) => Err(err()),
        },
        ("getblockhash", [RpcParam::Int(h)]) => {
            *hash_calls += 1;
            if node.bad_hash_calls.contains(hash_calls) {
                Err(err())
            } else {
                Ok(Value::String(format!("h{}", h)))
            }
        }
        ("getblock", [RpcParam::Json(Value::String(s))]) => {
            let h: i64 = s[1..].parse().unwrap();
            if node.bad_block_heights.contains(&h) {
                Err(err())
            } else {
                Ok(block_at(h))
            }
        }
        _ => panic!("unexpected call {}", call.method),
    }
}

fn describe(call: &RpcCall) -> String {
    let params: Vec<String> = call
        .params
        .iter()
        .map(|p| match p {
            RpcParam::Text(t) => t.clone(),
            RpcParam::Int(i) => i.to_string(),
            RpcParam::Flag(b) => b.to_string(),
            RpcParam::Json(v) => v.to_string(),
        })
        .collect();
    format!("{}({})", call.method, params.join(","))
}

fn heights(r: &HttpReply) -> Vec<i64> {
    assert_eq!(r.status, 200);
    match &r.body {
        ReplyBody::JsonList(v) => v.iter().map(|b| b["height"].as_i64().unwrap()).collect(),
        _ => panic!("expected a JSON array"),
    }
}

fn healthy(count: i64) -> Node {
    Node { count: Ok(Value::from(count)), bad_hash_calls: vec![], bad_block_heights: vec![] }
}

#[test]
fn all_fetches_give_ten_blocks_tip_first() {
    let (r, log) = walk(&healthy(800_000));
    assert_eq!(heights(&r), (0..10).map(|i| 800_000 - i).collect::<Vec<i64>>());
    assert_eq!(log.len(), 21);
    assert_eq!(log[0], "getblockcount()");
    assert_eq!(log[1], "getblockhash(800000)");
    assert_eq!(log[2], "getblock(\"h800000\")");
    assert_eq!(log[20], "getblock(\"h799991\")");
}

#[test]
fn blocks_arrive_unchanged() {
    let (r, _) = walk(&healthy(50));
    match r.body {
        ReplyBody::JsonList(v) => {
            assert_eq!(v.len(), 10);
            for (i, b) in v.iter().enumerate() {
                assert_eq!(*b, block_at(50 - i as i64));
            }
        }
        _ => panic!("expected a JSON array"),
    }
}

#[test]
fn failed_block_count_gives_500() {
    let node = Node { count: Err(err()), bad_hash_calls: vec![], bad_block_heights: vec![] };
    let (r, log) = walk(&node);
    assert_eq!(r.status, 500);
    assert!(matches!(r.body, ReplyBody::Text(t) if t == "Failed to retrieve latest blocks"));
    assert_eq!(log, vec!["getblockcount()".to_string()]);
}

#[test]
fn non_integer_block_count_gives_500() {
    let node = Node { count: Ok(Value::from("many")), bad_hash_calls: vec![], bad_block_heights: vec![] };
    let (r, log) = walk(&node);
    assert_eq!(r.status, 500);
    assert_eq!(log.len(), 1);
}

#[test]
fn one_failed_hash_leaves_nine_in_order() {
    let node = Node { count: Ok(Value::from(1000)), bad_hash_calls: vec![4], bad_block_heights: vec![] };
    let (r, log) = walk(&node);
    assert_eq!(heights(&r), vec![1000, 999, 998, 996, 995, 994, 993, 992, 991]);
    assert!(log.contains(&"getblockhash(997)".to_string()));
    assert!(!log.contains(&"getblock(\"h997\")".to_string()));
}

#[test]
fn one_failed_block_leaves_nine_in_order() {
    let node = Node { count: Ok(Value::from(1000)), bad_hash_calls: vec![], bad_block_heights: vec![993] };
    let (r, _) = walk(&node);
    assert_eq!(heights(&r), vec![1000, 999, 998, 997, 996, 995, 994, 992, 991]);
}

#[test]
fn every_fetch_failing_gives_an_empty_array() {
    let node = Node {
        count: Ok(Value::from(500)),
        bad_hash_calls: (1..=10).collect(),
        bad_block_heights: vec![],
    };
    let (r, log) = walk(&node);
    assert!(heights(&r).is_empty());
    assert_eq!(log.len(), 11);
}

#[test]
fn short_chain_stops_at_genesis() {
    let (r, log) = walk(&healthy(3));
    assert_eq!(heights(&r), vec![3, 2, 1, 0]);
    assert_eq!(log.len(), 9);
    let (r, _) = walk(&healthy(0));
    assert_eq!(heights(&r), vec![0]);
}

#[test]
fn negative_block_count_fetches_nothing() {
    match from_block_count(Some(-1)) {
        Progress::Finish(r) => assert!(heights(&r).is_empty()),
        Progress::Continue(..) => panic!("no height is below zero"),
    }
}

#[test]
fn block_count_starts_at_the_tip() {
    match from_block_count(Some(i64::MAX)) {
        Progress::Continue(_, c) => {
            assert_eq!(c.method, "getblockhash");
            assert!(matches!(c.params.as_slice(), [RpcParam::Int(h)] if *h == i64::MAX));
        }
        Progress::Finish(_) => panic!("expected a call"),
    }
    match from_block_count(None) {
        Progress::Finish(r) => assert_eq!(r.status, 500),
        Progress::Continue(..) => panic!("expected a failure"),
    }
}
