use serde_json::Value;
use solana_client_wasm::error::{ClientError, TransportError};
use solana_client_wasm::provider::{client_header, Action, HttpProvider, Pending, Provider};
use solana_client_wasm::request::envelope;
use solana_client_wasm::response::classify_body;
use solana_client_wasm::retry::{DEFAULT_BACKOFF_MILLIS, RETRY_BUDGET, TOO_MANY_REQUESTS};
use solana_rpc_client_api::request::RpcRequest;
use std::time::Duration;

fn json(text: &str) -> Value {
    serde_json::from_str(text).unwrap()
}

fn start() -> Pending {
    HttpProvider::new("http://localhost:8899").send(RpcRequest::GetSlot, Value::Null)
}

/// Plays the answers to a call: the attempts made, the waits between them, and
/// the outcome, if the answers sufficed to end the call.
fn play(
    pending: &mut Pending,
    replies: &[(u16, Option<&[u8]>, &[u8])],
) -> (usize, Vec<u64>, Option<Result<Value, ClientError>>) {
    let mut waits = Vec::new();
    for (attempt, (status, retry_after, body)) in replies.iter().enumerate() {
        match pending.on_status(*status, *retry_after) {
            Action::Retry { wait_millis } => waits.push(wait_millis),
            Action::Fail(e) => return (attempt + 1, waits, Some(Err(e))),
            Action::ReadBody => return (attempt + 1, waits, Some(classify_body(body))),
        }
    }
    (replies.len(), waits, None)
}

#[test]
fn new_provider_has_url_and_default_timeout() {
    let provider = HttpProvider::new("https://api.devnet.solana.com");
    assert_eq!(provider.url(), "https://api.devnet.solana.com");
    assert_eq!(provider.timeout(), Duration::from_secs(30));
}

#[test]
fn new_with_timeout_keeps_the_timeout() {
    let provider = HttpProvider::new_with_timeout("http://node", Duration::from_millis(1500));
    assert_eq!(provider.url(), "http://node");
    assert_eq!(provider.timeout(), Duration::from_millis(1500));
}

#[test]
fn default_headers_name_client_and_version() {
    let headers = HttpProvider::default_headers();
    assert_eq!(headers.len(), 1);
    assert_eq!(headers[0].0, "solana-client");
    assert_eq!(headers[0].1, format!("rust/{}", solana_version::Version::default()));
    assert!(headers[0].1.starts_with("rust/"));
    assert!(headers[0].1.len() > "rust/".len());
}

#[test]
fn client_header_for_a_version() {
    assert_eq!(
        client_header("1.18.3"),
        ("solana-client".to_string(), "rust/1.18.3".to_string())
    );
    assert_eq!(client_header(""), ("solana-client".to_string(), "rust/".to_string()));
}

#[test]
fn envelope_has_version_id_method_and_params() {
    let params = json(r#"["4fYNw3dojWmQ4dXtSGE9epjRGy9pFSx62YypT7avPYvA",{"commitment":"finalized"}]"#);
    let body = envelope(RpcRequest::GetBalance, 7, params.clone());
    let sent = json(&body);
    assert_eq!(sent["jsonrpc"], "2.0");
    assert_eq!(sent["id"], 7);
    assert_eq!(sent["method"], "getBalance");
    assert_eq!(sent["params"], params);
    assert_eq!(sent.as_object().unwrap().len(), 4);
    assert_eq!(body, RpcRequest::GetBalance.build_request_json(7, params).to_string());
}

#[test]
fn requests_are_json() {
    assert_eq!(solana_client_wasm::request::CONTENT_TYPE, "application/json");
}

#[test]
fn root_names_reach_the_items() {
    let mut provider = solana_client_wasm::Provider::Http(solana_client_wasm::HttpProvider::new("u"));
    let pending = provider.send(solana_client_wasm::ClientRequest::GetSlot, Value::Null);
    assert_eq!(json(pending.body())["method"], "getSlot");
    let failed: solana_client_wasm::ClientResult<Value> =
        Err(solana_client_wasm::ClientError::status(503));
    assert_eq!(failed, Err(ClientError::Transport(TransportError::Status(503))));
}

#[test]
fn envelope_of_a_custom_method() {
    let body = envelope(RpcRequest::Custom { method: "getThing" }, u64::MAX, Value::Null);
    let sent = json(&body);
    assert_eq!(sent["method"], "getThing");
    assert_eq!(sent["id"], u64::MAX);
    assert_eq!(sent["params"], Value::Null);
}

#[test]
fn ids_count_up_from_zero() {
    let mut provider = HttpProvider::new("http://localhost:8899");
    for expected in 0..10u64 {
        let pending = provider.send(RpcRequest::GetSlot, Value::Null);
        assert_eq!(json(pending.body())["id"], expected);
        assert_eq!(pending.retries_left(), RETRY_BUDGET);
    }
}

#[test]
fn ids_advance_whatever_becomes_of_the_call() {
    let mut provider = HttpProvider::new("http://localhost:8899");
    let mut failed = provider.send(RpcRequest::GetSlot, Value::Null);
    assert_eq!(json(failed.body())["id"], 0);
    assert_eq!(
        failed.on_status(500, None),
        Action::Fail(ClientError::Transport(TransportError::Status(500)))
    );
    let mut limited = provider.send(RpcRequest::GetSlot, Value::Null);
    assert_eq!(json(limited.body())["id"], 1);
    assert_eq!(limited.on_status(429, None), Action::Retry { wait_millis: 500 });
    let mut answered = provider.send(RpcRequest::GetVersion, Value::Null);
    assert_eq!(json(answered.body())["id"], 2);
    assert_eq!(answered.on_status(200, None), Action::ReadBody);
    let next = provider.send(RpcRequest::GetHealth, Value::Null);
    assert_eq!(json(next.body())["id"], 3);
    assert_eq!(json(next.body())["method"], "getHealth");
}

#[test]
fn provider_forwards_to_its_transport() {
    let mut provider = Provider::Http(HttpProvider::new("http://rpc"));
    assert_eq!(provider.url(), "http://rpc");
    let first = provider.send(RpcRequest::GetSlot, Value::Null);
    let second = provider.send(RpcRequest::GetEpochInfo, json("[1]"));
    assert_eq!(first.body(), RpcRequest::GetSlot.build_request_json(0, Value::Null).to_string());
    assert_eq!(
        second.body(),
        RpcRequest::GetEpochInfo.build_request_json(1, json("[1]")).to_string()
    );
    assert_eq!(second.retries_left(), 5);
    assert_eq!(provider.url(), "http://rpc");
}

#[test]
fn success_asks_for_the_body_and_costs_no_retry() {
    for status in [200u16, 201, 204, 299] {
        let mut pending = start();
        assert_eq!(pending.on_status(status, Some(b"3")), Action::ReadBody);
        assert_eq!(pending.retries_left(), 5);
    }
}

#[test]
fn success_returns_the_result_after_one_attempt() {
    let mut pending = start();
    let (attempts, waits, outcome) =
        play(&mut pending, &[(200, None, br#"{"jsonrpc":"2.0","result":12345,"id":0}"#)]);
    assert_eq!(attempts, 1);
    assert!(waits.is_empty());
    assert_eq!(outcome, Some(Ok(json("12345"))));
}

#[test]
fn other_status_fails_at_once() {
    for status in [500u16, 502, 404, 400, 302, 100, 199, 300, 0, 999] {
        let mut pending = start();
        let body = pending.body().to_string();
        let (attempts, waits, outcome) = play(
            &mut pending,
            &[(status, Some(b"1"), br#"{"result":1}"#), (200, None, br#"{"result":1}"#)],
        );
        assert_eq!(attempts, 1);
        assert!(waits.is_empty());
        assert_eq!(outcome, Some(Err(ClientError::Transport(TransportError::Status(status)))));
        assert_eq!(pending.retries_left(), 5);
        assert_eq!(pending.body(), body);
    }
}

#[test]
fn rate_limit_is_retried_until_success() {
    for k in 0..=5usize {
        let mut replies: Vec<(u16, Option<&[u8]>, &[u8])> = vec![(429, None, b""); k];
        replies.push((200, None, br#"{"result":"done"}"#));
        let mut pending = start();
        let body = pending.body().to_string();
        let (attempts, waits, outcome) = play(&mut pending, &replies);
        assert_eq!(attempts, k + 1);
        assert_eq!(waits, vec![500u64; k]);
        assert_eq!(outcome, Some(Ok(json("\"done\""))));
        assert_eq!(pending.retries_left() as usize, 5 - k);
        assert_eq!(pending.body(), body);
    }
}

#[test]
fn rate_limit_is_retried_until_another_failure() {
    let mut pending = start();
    let (attempts, waits, outcome) = play(
        &mut pending,
        &[(429, None, b""), (429, Some(b"2"), b""), (503, None, b"")],
    );
    assert_eq!(attempts, 3);
    assert_eq!(waits, vec![500, 2000]);
    assert_eq!(outcome, Some(Err(ClientError::Transport(TransportError::Status(503)))));
}

#[test]
fn six_rate_limits_fail_after_five_retries() {
    let replies: Vec<(u16, Option<&[u8]>, &[u8])> = vec![(429, None, b""); 8];
    let mut pending = start();
    let (attempts, waits, outcome) = play(&mut pending, &replies);
    assert_eq!(attempts, 6);
    assert_eq!(waits, vec![500u64; 5]);
    assert_eq!(
        outcome,
        Some(Err(ClientError::Transport(TransportError::Status(TOO_MANY_REQUESTS))))
    );
    assert_eq!(pending.retries_left(), 0);
}

#[test]
fn five_rate_limits_leave_the_call_open() {
    let replies: Vec<(u16, Option<&[u8]>, &[u8])> = vec![(429, None, b""); 5];
    let mut pending = start();
    let (attempts, waits, outcome) = play(&mut pending, &replies);
    assert_eq!(attempts, 5);
    assert_eq!(waits.len(), 5);
    assert_eq!(outcome, None);
    assert_eq!(pending.retries_left(), 0);
}

#[test]
fn backoff_follows_the_retry_after_header() {
    let mut pending = start();
    assert_eq!(pending.on_status(429, Some(b"3")), Action::Retry { wait_millis: 3000 });
    assert_eq!(pending.on_status(429, Some(b"200")), Action::Retry { wait_millis: 500 });
    assert_eq!(pending.on_status(429, None), Action::Retry { wait_millis: 500 });
    assert_eq!(pending.on_status(429, Some(b"0")), Action::Retry { wait_millis: 0 });
    assert_eq!(pending.on_status(429, Some(b"soon")), Action::Retry { wait_millis: 500 });
    assert_eq!(pending.retries_left(), 0);
    assert_eq!(
        pending.on_status(429, Some(b"3")),
        Action::Fail(ClientError::Transport(TransportError::Status(429)))
    );
    assert_eq!(pending.retries_left(), 0);
    assert_eq!(DEFAULT_BACKOFF_MILLIS, 500);
}

#[test]
fn rate_limit_then_node_error() {
    let mut pending = start();
    let (attempts, waits, outcome) = play(
        &mut pending,
        &[
            (429, Some(b"1"), b""),
            (200, None, br#"{"error":{"code":-32005,"message":"behind","data":{"numSlotsBehind":8}}}"#),
        ],
    );
    assert_eq!(attempts, 2);
    assert_eq!(waits, vec![1000]);
    assert_eq!(
        outcome,
        Some(Err(ClientError::Response {
            code: -32005,
            message: "behind".to_string(),
            data: solana_client_wasm::error::RpcResponseErrorData::NodeUnhealthy {
                num_slots_behind: Some(8)
            }
        }))
    );
}
