use vstd::prelude::*;
use vstd::string::StringExecFns;
use crate::status::{DeviceStatus, spec_ready};

verus! {

/// One JSON-RPC 2.0 request envelope as this system emits it. For
/// `update_status` the params hold a full snapshot; for `get_status`
/// they are null, carried as `None`.
pub struct JsonRpcRequest {
    pub jsonrpc: String,
    pub method: String,
    pub params: Option<DeviceStatus>,
    pub id: u32,
}

/// One decoded JSON-RPC 2.0 response envelope. The `result` and `error`
/// payloads are arbitrary JSON carried as rendered text: this layer decides
/// success or protocol error by their presence alone.
pub struct JsonRpcResponse {
    pub jsonrpc: String,
    pub result: Option<String>,
    pub error: Option<String>,
    pub id: u32,
}

/// What one decoded response means for the reporting call that received it.
/// None of these is an escalated failure: a protocol error is logged and
/// the call still completes.
#[derive(Clone, Copy, Debug, PartialEq, Eq)]
pub enum RpcOutcome {
    /// A `result` payload is present: the report was accepted.
    Success,
    /// No `result`, but an `error` payload: the collector reported a
    /// protocol-level error.
    ProtocolError,
    /// Neither payload is present: nothing to act on.
    NoPayload,
}

/// What the reporter does with one snapshot on one tick.
pub enum ReportPlan {
    /// The snapshot passes the readiness gate: send this request.
    Send(JsonRpcRequest),
    /// The identity is incomplete: skip this cycle silently.
    Skip,
}

impl DeviceStatus {
    /// The request envelope that reports this snapshot: protocol version
    /// `"2.0"`, method `"update_status"`, the snapshot as params, id 1.
    pub fn update_status_request(&self) -> (r: JsonRpcRequest)
        ensures
            r.jsonrpc@ == "2.0"@,
            r.method@ == "update_status"@,
            r.params matches Some(p) && p@ == self@,
            r.id == 1,
    {
        JsonRpcRequest {
            jsonrpc: String::from_str("2.0"),
            method: String::from_str("update_status"),
            params: Some(self.snapshot()),
            id: 1,
        }
    }
}

/// The auxiliary diagnostic request: same envelope shape, method
/// `"get_status"`, null params, id 2.
pub fn get_status_request() -> (r: JsonRpcRequest)
    ensures
        r.jsonrpc@ == "2.0"@,
        r.method@ == "get_status"@,
        r.params is None,
        r.id == 2,
{
    JsonRpcRequest {
        jsonrpc: String::from_str("2.0"),
        method: String::from_str("get_status"),
        params: None,
        id: 2,
    }
}

/// Classifies one decoded response: a present `result` means success and
/// wins over everything else; otherwise a present `error` is a protocol
/// error; otherwise there is nothing to act on.
pub fn interpret_response(resp: &JsonRpcResponse) -> (r: RpcOutcome)
    ensures
        resp.result is Some ==> r is Success,
        resp.result is None && resp.error is Some ==> r is ProtocolError,
        resp.result is None && resp.error is None ==> r is NoPayload,
{
    if resp.result.is_some() {
        RpcOutcome::Success
    } else if resp.error.is_some() {
        RpcOutcome::ProtocolError
    } else {
        RpcOutcome::NoPayload
    }
}

/// One reporting decision: a snapshot that passes the readiness gate yields
/// its `update_status` request, and one with an incomplete identity yields
/// a skip — independent of every non-identity field.
pub fn plan_report(status: &DeviceStatus) -> (r: ReportPlan)
    ensures
        spec_ready(status@) ==> (r matches ReportPlan::Send(req) && req.jsonrpc@ == "2.0"@
            && req.method@ == "update_status"@ && (req.params matches Some(p) && p@ == status@)
            && req.id == 1),
        !spec_ready(status@) ==> r is Skip,
{
    if status.is_ready() {
        ReportPlan::Send(status.update_status_request())
    } else {
        ReportPlan::Skip
    }
}

} // verus!
