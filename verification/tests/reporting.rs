use telemetry::DeviceStatus;
use telemetry::rpc::{
    get_status_request, interpret_response, plan_report, JsonRpcResponse, ReportPlan, RpcOutcome,
};

fn decode_response(body: &str) -> JsonRpcResponse {
    let v: serde_json::Value = serde_json::from_str(body).unwrap();
    JsonRpcResponse {
        jsonrpc: v.get("jsonrpc").and_then(|x| x.as_str()).unwrap().to_string(),
        result: v.get("result").map(|x| x.to_string()),
        error: v.get("error").map(|x| x.to_string()),
        id: v.get("id").and_then(|x| x.as_u64()).unwrap() as u32,
    }
}

#[test]
fn readiness_requires_all_three_identity_fields() {
    let mut store = DeviceStatus::new();
    assert!(!store.is_ready());
    store.set_device_id("".to_string());
    store.set_device_owner("x".to_string());
    store.set_peer_id("y".to_string());
    assert!(!store.is_ready());
    assert!(matches!(plan_report(&store), ReportPlan::Skip));
    store.set_device_id("d".to_string());
    assert!(store.is_ready());
    store.set_device_owner("".to_string());
    assert!(!store.is_ready());
    store.set_device_owner("x".to_string());
    store.set_peer_id("".to_string());
    assert!(!store.is_ready());
}

#[test]
fn readiness_ignores_non_identity_fields() {
    let mut store = DeviceStatus::new();
    store.set_device_id("d".to_string());
    store.set_device_owner("o".to_string());
    store.set_peer_id("p".to_string());
    assert!(store.is_ready());
    store.set_peers_count(0);
    store.set_device_version("".to_string());
    store.set_uptime(-1);
    store.set_errors(vec![255]);
    assert!(store.is_ready());
}

#[test]
fn ready_snapshot_yields_update_status_request() {
    let mut store = DeviceStatus::new();
    store.set_device_id("d".to_string());
    store.set_device_owner("o".to_string());
    store.set_peer_id("p".to_string());
    store.set_peers_count(4);
    store.add_upload(33);
    match plan_report(&store) {
        ReportPlan::Send(req) => {
            assert_eq!(req.jsonrpc, "2.0");
            assert_eq!(req.method, "update_status");
            assert_eq!(req.id, 1);
            let params = req.params.expect("params must carry the snapshot");
            assert_eq!(params.device_id, "d");
            assert_eq!(params.peers_count, 4);
            assert_eq!(*params.upload_bandwidth.last().unwrap(), 33);
            assert_eq!(params.upload_bandwidth.len(), 30);
        }
        ReportPlan::Skip => panic!("a ready snapshot must be sent"),
    }
}

#[test]
fn get_status_request_envelope() {
    let req = get_status_request();
    assert_eq!(req.jsonrpc, "2.0");
    assert_eq!(req.method, "get_status");
    assert_eq!(req.id, 2);
    assert!(req.params.is_none());
}

#[test]
fn result_payload_is_success() {
    let resp = decode_response("{\"jsonrpc\":\"2.0\",\"result\":{\"ok\":true},\"id\":1}");
    assert_eq!(resp.jsonrpc, "2.0");
    assert_eq!(resp.id, 1);
    assert!(resp.error.is_none());
    assert_eq!(interpret_response(&resp), RpcOutcome::Success);
}

#[test]
fn error_payload_is_reported_not_raised() {
    let resp =
        decode_response("{\"jsonrpc\":\"2.0\",\"error\":{\"code\":-1,\"message\":\"bad\"},\"id\":1}");
    assert!(resp.result.is_none());
    assert_eq!(interpret_response(&resp), RpcOutcome::ProtocolError);
}

#[test]
fn empty_envelope_has_no_payload() {
    let resp = decode_response("{\"jsonrpc\":\"2.0\",\"id\":1}");
    assert_eq!(interpret_response(&resp), RpcOutcome::NoPayload);
}

#[test]
fn result_wins_over_error() {
    let resp = JsonRpcResponse {
        jsonrpc: "2.0".to_string(),
        result: Some("1".to_string()),
        error: Some("2".to_string()),
        id: 1,
    };
    assert_eq!(interpret_response(&resp), RpcOutcome::Success);
}
