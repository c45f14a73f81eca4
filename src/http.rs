use vstd::prelude::*;

use crate::forwarder::{BrokerOutputForwarder, JsonRpcApiResponse};
use crate::json::{compact, json_compact, json_member, json_string_value, member, string_value};
use crate::request::{BrokerError, BrokerRequest, ListenKind};
use crate::text::{chars_of, decimal, parse_u64, parse_u64_spec};

verus! {

/// The error object of a request that an HTTP endpoint refused.
pub open spec fn http_error_spec() -> Seq<char> {
    "{\"code\":-32602,\"message\":\"Invalid params\"}"@
}

/// The method under which a subscription's answer comes back from a plain
/// HTTP endpoint: `<call id>.<method>`.
pub open spec fn http_event_method(req: BrokerRequest) -> Seq<char> {
    decimal(req.rpc.call_id as nat) + "."@ + req.rpc.method@
}

/// A JSON member that must be a string.
pub open spec fn string_member(body: Seq<char>, key: Seq<char>) -> Option<Seq<char>> {
    match json_member(body, key) {
        Some(v) => json_string_value(v),
        None => None,
    }
}

/// A JSON member that must be an unsigned integer.
pub open spec fn number_member(body: Seq<char>, key: Seq<char>) -> Option<u64> {
    match json_member(body, key) {
        Some(v) => parse_u64_spec(v),
        None => None,
    }
}

/// The fields of a JSON-RPC response, read from its text. A body that is
/// not a JSON object is a parse error.
pub open spec fn parse_response_spec(body: Seq<char>, r: JsonRpcApiResponse) -> bool {
    &&& r.id == number_member(body, "id"@)
    &&& match (r.method, string_member(body, "method"@)) {
        (Some(x), Some(y)) => x@ == y,
        (None, None) => true,
        _ => false,
    }
    &&& same_text(r.result, json_member(body, "result"@))
    &&& same_text(r.error, json_member(body, "error"@))
    &&& same_text(r.params, json_member(body, "params"@))
}

pub open spec fn same_text(a: Option<String>, b: Option<Seq<char>>) -> bool {
    match (a, b) {
        (Some(x), Some(y)) => x@ == y,
        (None, None) => true,
        _ => false,
    }
}

/// The decisions of the HTTP driver.
pub struct HttpBroker;

impl HttpBroker {
    /// The URL that a request for `alias` is sent to.
    pub fn target(url: &str, alias: &str) -> (r: String)
        ensures
            r@ == url@ + "/"@ + alias@,
    {
        let mut out = String::new();
        out.append(url);
        out.append("/");
        out.append(alias);
        out
    }

    /// Reads a JSON-RPC response from its text.
    pub fn parse_response(body: &str) -> (r: Result<JsonRpcApiResponse, BrokerError>)
        ensures
            match r {
                Ok(resp) => json_compact(body@).is_some() && parse_response_spec(body@, resp),
                Err(e) => e == BrokerError::ParseError && json_compact(body@).is_none(),
            },
    {
        if compact(body).is_none() {
            return Err(BrokerError::ParseError);
        }
        let id = match member(body, "id") {
            Some(v) => {
                let digits = chars_of(v.as_str());
                parse_u64(&digits)
            },
            None => None,
        };
        let method = match member(body, "method") {
            Some(v) => string_value(v.as_str()),
            None => None,
        };
        let result = member(body, "result");
        let error = member(body, "error");
        let params = member(body, "params");
        Ok(JsonRpcApiResponse { id, method, result, error, params })
    }

    /// What the forwarder receives for the HTTP answer to `req`. A status
    /// outside 2xx becomes an invalid-params error for the call. A JSON-RPC
    /// endpoint's body is read as a JSON-RPC response; any other body must be
    /// JSON and becomes the result, under `<call id>.<method>` for a
    /// subscription.
    pub fn handle_response(req: &BrokerRequest, status: u16, body: &str, is_jsonrpc: bool) -> (r:
        Result<JsonRpcApiResponse, BrokerError>)
        ensures
            if !(200 <= status < 300) {
                r matches Ok(resp) && resp.id == Some(req.rpc.call_id) && resp.method.is_none()
                    && resp.result.is_none() && resp.params.is_none() && (resp.error matches Some(
                    e,
                ) && e@ == http_error_spec())
            } else if is_jsonrpc {
                match r {
                    Ok(resp) => json_compact(body@).is_some() && parse_response_spec(body@, resp),
                    Err(e) => e == BrokerError::ParseError && json_compact(body@).is_none(),
                }
            } else {
                match json_compact(body@) {
                    Some(v) => r matches Ok(resp) && resp.id == Some(req.rpc.call_id)
                        && resp.error.is_none() && resp.params.is_none() && (resp.result matches Some(
                        x,
                    ) && x@ == v) && if req.rpc.listen != ListenKind::Call {
                        resp.method matches Some(m) && m@ == http_event_method(*req)
                    } else {
                        resp.method.is_none()
                    },
                    None => r == Err::<JsonRpcApiResponse, BrokerError>(BrokerError::ParseError),
                }
            },
    {
        if status < 200 || status >= 300 {
            return Ok(JsonRpcApiResponse {
                id: Some(req.rpc.call_id),
                method: None,
                result: None,
                error: Some("{\"code\":-32602,\"message\":\"Invalid params\"}".to_owned()),
                params: None,
            });
        }
        if is_jsonrpc {
            return Self::parse_response(body);
        }
        BrokerOutputForwarder::handle_non_jsonrpc_response(body, req)
    }
}

} // verus!
