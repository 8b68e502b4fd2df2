use bitcoind_exporter::handler::{failure_reply, is_metrics_request, route_miss_reply, success_reply};
use bitcoind_exporter::rpc::{RpcError, RpcOp};

#[test]
fn only_get_metrics_matches_the_route() {
    assert!(is_metrics_request("GET", "/metrics"));
    assert!(!is_metrics_request("POST", "/metrics"));
    assert!(!is_metrics_request("GET", "/"));
    assert!(!is_metrics_request("GET", "/metrics/"));
    assert!(!is_metrics_request("PUT", "/other"));
    assert!(!is_metrics_request("get", "/metrics"));
}

#[test]
fn route_miss_is_not_found_with_empty_body() {
    let reply = route_miss_reply();
    assert_eq!(reply.status, 404);
    assert_eq!(reply.body, String::new());
}

#[test]
fn collection_failure_is_not_found_with_the_cause() {
    let error = RpcError {
        op: RpcOp::GetBlockchainInfo,
        message: "JSON-RPC error: transport error".to_string(),
    };
    let reply = failure_reply(&error);
    assert_eq!(reply.status, 404);
    assert_eq!(reply.body, "JSON-RPC error: transport error".to_string());
}

#[test]
fn collection_success_is_ok_with_the_rendered_snapshot() {
    let reply = success_reply("bitcoin_blocks 840000\n".to_string());
    assert_eq!(reply.status, 200);
    assert_eq!(reply.body, "bitcoin_blocks 840000\n".to_string());
}

#[test]
fn error_description_is_the_message_verbatim() {
    let error = RpcError { op: RpcOp::ListBanned, message: "timeout".to_string() };
    assert_eq!(error.describe(), "timeout".to_string());
}
