use vstd::prelude::*;

use crate::json::{compact, json_compact, json_quoted, payload_spec, quote, request_payload};
use crate::request::{BrokerError, BrokerRequest};
use crate::text::{decimal, decimal_string};

verus! {

/// A JSON-RPC 2.0 request: `{"jsonrpc":"2.0","id":<id>,"method":<method>}`,
/// with `"params":<params>` before the closing brace when there are any.
pub open spec fn request_frame_spec(id: u64, method: Seq<char>, params: Option<Seq<char>>) -> Seq<
    char,
> {
    "{\"jsonrpc\":\"2.0\",\"id\":"@ + decimal(id as nat) + ",\"method\":"@ + json_quoted(method) + (
    match params {
        Some(p) => ",\"params\":"@ + p,
        None => ""@,
    }) + "}"@
}

/// The parameters that register or unregister an event under a call id:
/// `{"event":<event>,"id":"<id>"}`.
pub open spec fn event_params_spec(event: Seq<char>, id: u64) -> Seq<char> {
    "{\"event\":"@ + json_quoted(event) + ",\"id\":"@ + json_quoted(decimal(id as nat)) + "}"@
}

/// The frame that registers (or unregisters) `event` of `callsign` under the
/// call id `id`.
pub open spec fn event_frame_spec(id: u64, callsign: Seq<char>, register: bool, event: Seq<char>) -> Seq<
    char,
> {
    request_frame_spec(
        id,
        callsign + (if register {
            ".register"@
        } else {
            ".unregister"@
        }),
        Some(event_params_spec(event, id)),
    )
}

/// The frame that asks the controller for the state of `callsign`.
pub open spec fn status_frame_spec(id: u64, callsign: Seq<char>) -> Seq<char> {
    request_frame_spec(id, "Controller.1.status@"@ + callsign, None)
}

/// The frame that asks the controller to activate `callsign`.
pub open spec fn activate_frame_spec(id: u64, callsign: Seq<char>) -> Seq<char> {
    request_frame_spec(
        id,
        "Controller.1.activate"@,
        Some("{\"callsign\":"@ + json_quoted(callsign) + "}"@),
    )
}

/// Writes a JSON-RPC 2.0 request.
pub fn request_frame(id: u64, method: &str, params: Option<&str>) -> (r: String)
    ensures
        r@ == request_frame_spec(
            id,
            method@,
            match params {
                Some(p) => Some(p@),
                None => None,
            },
        ),
{
    let mut out = String::new();
    out.append("{\"jsonrpc\":\"2.0\",\"id\":");
    let n = decimal_string(id);
    out.append(n.as_str());
    out.append(",\"method\":");
    let m = quote(method);
    out.append(m.as_str());
    match params {
        Some(p) => {
            let mut tail = String::new();
            tail.append(",\"params\":");
            tail.append(p);
            out.append(tail.as_str());
        },
        None => {
            out.append("");
        },
    }
    out.append("}");
    out
}

/// Writes the parameters that name an event and a call id.
fn event_params(event: &str, id: u64) -> (r: String)
    ensures
        r@ == event_params_spec(event@, id),
{
    let mut out = String::new();
    out.append("{\"event\":");
    let e = quote(event);
    out.append(e.as_str());
    out.append(",\"id\":");
    let n = decimal_string(id);
    let q = quote(n.as_str());
    out.append(q.as_str());
    out.append("}");
    out
}

/// Writes the frame that registers (or unregisters) `event` of `callsign`
/// under the call id `id`.
pub fn event_frame(id: u64, callsign: &str, register: bool, event: &str) -> (r: String)
    ensures
        r@ == event_frame_spec(id, callsign@, register, event@),
{
    let mut method = String::new();
    method.append(callsign);
    if register {
        method.append(".register");
    } else {
        method.append(".unregister");
    }
    let params = event_params(event, id);
    request_frame(id, method.as_str(), Some(params.as_str()))
}

/// Writes the frame that asks the controller for the state of `callsign`.
pub fn status_frame(id: u64, callsign: &str) -> (r: String)
    ensures
        r@ == status_frame_spec(id, callsign@),
{
    let mut method = String::new();
    method.append("Controller.1.status@");
    method.append(callsign);
    request_frame(id, method.as_str(), None)
}

/// Writes the frame that asks the controller to activate `callsign`.
pub fn activate_frame(id: u64, callsign: &str) -> (r: String)
    ensures
        r@ == activate_frame_spec(id, callsign@),
{
    let mut params = String::new();
    params.append("{\"callsign\":");
    let q = quote(callsign);
    params.append(q.as_str());
    params.append("}");
    request_frame(id, "Controller.1.activate", Some(params.as_str()))
}

/// The characters of a request filter's output.
pub open spec fn filtered_view(filtered: Option<Option<String>>) -> Option<Option<Seq<char>>> {
    match filtered {
        Some(p) => Some(
            match p {
                Some(t) => Some(t@),
                None => None,
            },
        ),
        None => None,
    }
}

/// The payload that goes out with a plain call: the request filter's output
/// when one was applied (none when it gave nothing or JSON `null`), else the
/// payload of the parameters.
pub open spec fn shaped_payload(
    req: BrokerRequest,
    filtered: Option<Option<Seq<char>>>,
) -> Result<Option<Seq<char>>, BrokerError> {
    match filtered {
        Some(Some(t)) => if json_compact(t) == Some("null"@) {
            Ok(None)
        } else {
            Ok(Some(t))
        },
        Some(None) => Ok(None),
        None => payload_spec(req.rpc.params_json@),
    }
}

/// The JSON-RPC request that carries `req`: the backend method is the rule's
/// alias, with the payload as parameters when there is one.
pub fn update_request(req: &BrokerRequest, filtered: Option<Option<String>>) -> (r: Result<
    String,
    BrokerError,
>)
    ensures
        match (r, shaped_payload(*req, filtered_view(filtered))) {
            (Ok(t), Ok(p)) => t@ == request_frame_spec(req.rpc.call_id, req.rule.alias@, p),
            (Err(e), Err(f)) => e == f,
            _ => false,
        },
{
    let payload = match filtered {
        Some(Some(t)) => {
            let null: String = "null".to_owned();
            match compact(t.as_str()) {
                Some(c) => if c == null {
                    None
                } else {
                    Some(t)
                },
                None => Some(t),
            }
        },
        Some(None) => None,
        None => match request_payload(req.rpc.params_json.as_str()) {
            Ok(p) => p,
            Err(e) => {
                return Err(e);
            },
        },
    };
    match &payload {
        Some(p) => Ok(request_frame(req.rpc.call_id, req.rule.alias.as_str(), Some(p.as_str()))),
        None => Ok(request_frame(req.rpc.call_id, req.rule.alias.as_str(), None)),
    }
}

} // verus!
