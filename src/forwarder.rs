use vstd::prelude::*;

use crate::json::{
    compact,
    json_compact,
    json_member,
    json_quoted,
    json_string_value,
    member,
    quote,
    string_value,
};
use crate::registry::RequestRegistry;
use crate::request::{BrokerError, BrokerRequest, ListenKind, copy_text, error_object_spec};
use crate::text::{decimal, decimal_string, leading_number, parse_leading_number};

verus! {

/// A JSON-RPC response or event frame from a backend. The values are JSON
/// text.
#[derive(Debug)]
pub struct JsonRpcApiResponse {
    pub id: Option<u64>,
    pub method: Option<String>,
    pub result: Option<String>,
    pub error: Option<String>,
    pub params: Option<String>,
}

/// What a driver hands to the forwarder.
#[derive(Debug)]
pub struct BrokerOutput {
    pub data: JsonRpcApiResponse,
}

/// The call id that an event frame names: the number its method starts with.
pub open spec fn event_id(data: JsonRpcApiResponse) -> Option<u64> {
    match data.method {
        Some(m) => leading_number(m@),
        None => None,
    }
}

/// The acknowledgement of a subscription request:
/// `{"listening":<bool>,"event":<method>}`.
pub open spec fn ack_spec(req: BrokerRequest) -> Seq<char> {
    "{\"listening\":"@ + (if req.rpc.listen == ListenKind::Listen {
        "true"@
    } else {
        "false"@
    }) + ",\"event\":"@ + json_quoted(req.rpc.method@) + "}"@
}

/// The filter that a composite request carried in its `response` member.
pub open spec fn composite_filter(data: JsonRpcApiResponse) -> Option<Seq<char>> {
    match data.params {
        Some(p) => match json_member(p@, "response"@) {
            Some(v) => json_string_value(v),
            None => None,
        },
        None => None,
    }
}

/// What the forwarder decided for one backend output.
#[derive(Debug)]
pub enum Forwarded {
    /// No request waits for the output, or it acknowledges a subscription
    /// that was already acknowledged.
    Dropped,
    /// An event whose rule hands it to an in-process method.
    HandleEvent { request: BrokerRequest, response: JsonRpcApiResponse, handler: String },
    /// A response for the client of `request`, once `filter`, if any, was
    /// applied.
    Deliver {
        request: BrokerRequest,
        response: JsonRpcApiResponse,
        filter: Option<String>,
        is_event: bool,
    },
}

impl JsonRpcApiResponse {
    /// A field-by-field copy.
    pub fn duplicate(&self) -> (r: JsonRpcApiResponse)
        ensures
            r == *self,
    {
        JsonRpcApiResponse {
            id: self.id,
            method: copy_text(&self.method),
            result: copy_text(&self.result),
            error: copy_text(&self.error),
            params: copy_text(&self.params),
        }
    }
}

impl BrokerOutput {
    pub fn new(data: JsonRpcApiResponse) -> (r: BrokerOutput)
        ensures
            r.data == data,
    {
        BrokerOutput { data }
    }

    pub fn with_jsonrpc_response(&mut self, data: JsonRpcApiResponse)
        ensures
            final(self).data == data,
    {
        self.data = data;
    }

    pub fn is_result(&self) -> (r: bool)
        ensures
            r == self.data.result.is_some(),
    {
        self.data.result.is_some()
    }

    pub fn is_success(&self) -> (r: bool)
        ensures
            r == self.data.result.is_some(),
    {
        self.data.result.is_some()
    }

    pub fn is_error(&self) -> (r: bool)
        ensures
            r == self.data.error.is_some(),
    {
        self.data.error.is_some()
    }

    pub fn get_result(&self) -> (r: Option<String>)
        ensures
            r == self.data.result,
    {
        copy_text(&self.data.result)
    }

    pub fn get_error(&self) -> (r: Option<String>)
        ensures
            r == self.data.error,
    {
        copy_text(&self.data.error)
    }

    /// The error as JSON text, or `unknown` when there is none.
    pub fn get_error_string(&self) -> (r: String)
        ensures
            r@ == match self.data.error {
                Some(e) => e@,
                None => "unknown"@,
            },
    {
        match &self.data.error {
            Some(e) => e.clone(),
            None => "unknown".to_owned(),
        }
    }

    /// The call id of the subscription that this output is an event of: the
    /// number its method starts with.
    pub fn get_event(&self) -> (r: Option<u64>)
        ensures
            r == event_id(self.data),
    {
        match &self.data.method {
            Some(m) => parse_leading_number(m.as_str()),
            None => None,
        }
    }
}

/// The response that a plugin-aware driver hands on: an event carries its
/// payload in `params`, which becomes the result; `params` then holds what a
/// composite request remembered, if anything.
pub fn update_response(response: &JsonRpcApiResponse, params: Option<String>) -> (r:
    JsonRpcApiResponse)
    ensures
        r.id == response.id,
        r.method == response.method,
        r.error == response.error,
        r.result == (if response.params.is_some() {
            response.params
        } else {
            response.result
        }),
        r.params == (if params.is_some() {
            params
        } else {
            response.params
        }),
{
    let mut out = response.duplicate();
    if response.params.is_some() {
        out.result = copy_text(&response.params);
    }
    if params.is_some() {
        out.params = params;
    }
    out
}

/// The acknowledgement that a subscription request gets.
pub fn subscription_ack(req: &BrokerRequest) -> (r: String)
    ensures
        r@ == ack_spec(*req),
{
    let mut out = String::new();
    out.append("{\"listening\":");
    if req.rpc.listen == ListenKind::Listen {
        out.append("true");
    } else {
        out.append("false");
    }
    out.append(",\"event\":");
    let m = quote(req.rpc.method.as_str());
    out.append(m.as_str());
    out.append("}");
    out
}

/// The parameters under which a driver hands on a remembered `response`
/// object: `{"response":<response>}`.
pub fn composite_params(response: &str) -> (r: String)
    ensures
        r@ == "{\"response\":"@ + response@ + "}"@,
{
    let mut out = String::new();
    out.append("{\"response\":");
    out.append(response);
    out.append("}");
    out
}

/// What the client of `req` receives for an event that the rule's handler
/// took: the client's call id and method; the handler's answer as the result
/// when it gave one, else the event's own result.
pub fn handled_event_response(
    req: &BrokerRequest,
    response: &JsonRpcApiResponse,
    handler_result: Option<String>,
) -> (r: JsonRpcApiResponse)
    ensures
        r.id == Some(req.rpc.call_id),
        r.method == Some(req.rpc.method),
        r.error == response.error,
        r.params == response.params,
        r.result == (if handler_result.is_some() {
            handler_result
        } else {
            response.result
        }),
{
    let result = match handler_result {
        Some(h) => Some(h),
        None => copy_text(&response.result),
    };
    JsonRpcApiResponse {
        id: Some(req.rpc.call_id),
        method: Some(req.rpc.method.clone()),
        result,
        error: copy_text(&response.error),
        params: copy_text(&response.params),
    }
}

/// The error response for the call of `req`.
pub fn error_response(req: &BrokerRequest, e: BrokerError) -> (r: JsonRpcApiResponse)
    ensures
        r.id == Some(req.rpc.call_id),
        r.method.is_none() && r.result.is_none() && r.params.is_none(),
        r.error matches Some(x) && x@ == error_object_spec(e),
{
    JsonRpcApiResponse {
        id: Some(req.rpc.call_id),
        method: None,
        result: None,
        error: Some(e.error_object()),
        params: None,
    }
}

/// The error object of a filter that could not be evaluated.
pub open spec fn filter_error_spec() -> Seq<char> {
    "{\"code\":-32700,\"message\":\"ParseError\"}"@
}

/// A response after its response filter ran. `output` is what the filter
/// gave for the whole response, or its failure. An `error` member in the
/// output becomes the response's error and the result goes; any other output
/// becomes the result. A failure becomes a parse error, with no result.
pub fn apply_response(response: &JsonRpcApiResponse, output: Result<String, BrokerError>) -> (r:
    JsonRpcApiResponse)
    ensures
        r.id == response.id,
        r.method == response.method,
        r.params == response.params,
        match output {
            Ok(out) => match json_member(out@, "error"@) {
                Some(e) => r.result.is_none() && (r.error matches Some(x) && x@ == e),
                None => r.error.is_none() && (r.result matches Some(x) && x@ == out@),
            },
            Err(_) => r.result.is_none() && (r.error matches Some(x) && x@ == filter_error_spec()),
        },
{
    let mut out = response.duplicate();
    match output {
        Ok(text) => match member(text.as_str(), "error") {
            Some(e) => {
                out.error = Some(e);
                out.result = None;
            },
            None => {
                out.result = Some(text);
                out.error = None;
            },
        },
        Err(_) => {
            out.error = Some("{\"code\":-32700,\"message\":\"ParseError\"}".to_owned());
            out.result = None;
        },
    }
    out
}

/// An event after its event filter ran: what the filter gave replaces the
/// payload; when the filter fails the payload stays.
pub fn apply_event_filter(response: &JsonRpcApiResponse, output: Result<String, BrokerError>) -> (r:
    JsonRpcApiResponse)
    ensures
        r.id == response.id,
        r.method == response.method,
        r.result == response.result,
        r.error == response.error,
        match output {
            Ok(out) => r.params matches Some(x) && x@ == out@,
            Err(_) => r.params == response.params,
        },
{
    let mut out = response.duplicate();
    if let Ok(text) = output {
        out.params = Some(text);
    }
    out
}

/// Whether an event passes its match filter, given what the filter gave: it
/// is dropped when that is `false` or `null`, and kept when the filter fails.
pub fn match_filter_passes(output: &Result<String, BrokerError>) -> (r: bool)
    ensures
        match output {
            Ok(out) => match json_compact(out@) {
                Some(t) => r == (t != "false"@ && t != "null"@),
                None => r,
            },
            Err(_) => r,
        },
{
    match output {
        Ok(text) => match compact(text.as_str()) {
            Some(t) => {
                let f: String = "false".to_owned();
                let n: String = "null".to_owned();
                !(t == f) && !(t == n)
            },
            None => true,
        },
        Err(_) => true,
    }
}

/// The filter that a composite request carried, if any.
pub fn get_composite_filter(data: &JsonRpcApiResponse) -> (r: Option<String>)
    ensures
        match (r, composite_filter(*data)) {
            (Some(x), Some(y)) => x@ == y,
            (None, None) => true,
            _ => false,
        },
{
    match &data.params {
        Some(p) => match member(p.as_str(), "response") {
            Some(v) => string_value(v.as_str()),
            None => None,
        },
        None => None,
    }
}

/// What the client of `req` receives for an event `data`: the client's call
/// id and method, with the event payload as parameters.
pub open spec fn event_response_spec(req: BrokerRequest, data: JsonRpcApiResponse) -> JsonRpcApiResponse {
    JsonRpcApiResponse {
        id: Some(req.rpc.call_id),
        method: Some(req.rpc.method),
        result: None,
        error: None,
        params: data.result,
    }
}

/// The forwarder's decision for a backend output and the registry after it.
pub open spec fn forward_post(
    before: RequestRegistry,
    after: RequestRegistry,
    data: JsonRpcApiResponse,
    r: Forwarded,
) -> bool {
    let is_event = event_id(data).is_some();
    let id = if is_event {
        event_id(data)
    } else {
        data.id
    };
    match id {
        None => r is Dropped && after@ == before@,
        Some(id) => if !before@.contains_key(id) {
            r is Dropped && after@ == before@
        } else {
            let req = before@[id];
            let consumed = if req.is_kept_spec() {
                before@
            } else {
                before@.remove(id)
            };
            let has_result = data.result.is_some();
            if has_result && is_event && req.rule.event_handler.is_some() {
                &&& after@ == consumed
                &&& r == Forwarded::HandleEvent {
                    request: req,
                    response: data,
                    handler: req.rule.event_handler->0,
                }
            } else if has_result && is_event {
                &&& after@ == consumed
                &&& r == Forwarded::Deliver {
                    request: req,
                    response: event_response_spec(req, data),
                    filter: req.rule.event_filter,
                    is_event: true,
                }
            } else if has_result && req.rpc.listen != ListenKind::Call {
                if req.subscription_processed {
                    r is Dropped && after@ == consumed
                } else {
                    &&& after@ == (if consumed.contains_key(id) {
                        consumed.insert(id, BrokerRequest { subscription_processed: true, ..req })
                    } else {
                        consumed
                    })
                    &&& r matches Forwarded::Deliver { request, response, filter, is_event }
                    &&& request == req && filter.is_none() && !is_event
                    &&& response.id == Some(req.rpc.call_id)
                    &&& response.result matches Some(ack) && ack@ == ack_spec(req)
                    &&& response.error == data.error
                    &&& response.method.is_none() && response.params.is_none()
                }
            } else {
                let filter = match composite_filter(data) {
                    Some(f) => Some(f),
                    None => match req.rule.response_filter {
                        Some(f) => Some(f@),
                        None => None,
                    },
                };
                &&& after@ == consumed
                &&& r matches Forwarded::Deliver { request, response, filter: chosen, is_event }
                &&& request == req && !is_event
                &&& match (chosen, filter) {
                    (Some(x), Some(y)) => x@ == y,
                    (None, None) => true,
                    _ => false,
                }
                &&& response.id == Some(req.rpc.call_id)
                &&& response.error == data.error
                &&& response.method == data.method
                &&& response.params == data.params
                &&& if filter.is_none() && data.result.is_none() && data.error.is_none() {
                    response.result matches Some(n) && n@ == "null"@
                } else {
                    response.result == data.result
                }
            }
        },
    }
}

/// The forwarder: joins backend outputs to the requests they answer.
#[derive(Debug)]
pub struct BrokerOutputForwarder;

impl BrokerOutputForwarder {
    /// Joins a backend output to the request it answers and decides what the
    /// client gets: events go to the subscriber under its own method, the first
    /// answer to a subscription becomes its acknowledgement, and any other
    /// response is handed on with the filter to apply.
    pub fn forward(registry: &mut RequestRegistry, output: BrokerOutput) -> (r: Forwarded)
        requires
            old(registry).wf(),
        ensures
            final(registry).wf(),
            final(registry).last_id_spec() == old(registry).last_id_spec(),
            forward_post(*old(registry), *final(registry), output.data, r),
    {
        let data = output.data;
        let event = match &data.method {
            Some(m) => parse_leading_number(m.as_str()),
            None => None,
        };
        let is_event = event.is_some();
        let id = if is_event {
            event
        } else {
            data.id
        };
        let id = match id {
            Some(id) => id,
            None => {
                return Forwarded::Dropped;
            },
        };
        let req = match registry.get_and_consume(id) {
            Some(req) => req,
            None => {
                return Forwarded::Dropped;
            },
        };
        let has_result = data.result.is_some();
        if has_result && is_event {
            match &req.rule.event_handler {
                Some(h) => {
                    let handler = h.clone();
                    return Forwarded::HandleEvent { request: req, response: data, handler };
                },
                None => {},
            }
            let response = JsonRpcApiResponse {
                id: Some(req.rpc.call_id),
                method: Some(req.rpc.method.clone()),
                result: None,
                error: None,
                params: data.result,
            };
            let filter = copy_text(&req.rule.event_filter);
            return Forwarded::Deliver { request: req, response, filter, is_event: true };
        }
        if has_result && req.rpc.listen != ListenKind::Call {
            if req.subscription_processed {
                return Forwarded::Dropped;
            }
            let ack = subscription_ack(&req);
            registry.mark_subscription_processed(id);
            let response = JsonRpcApiResponse {
                id: Some(req.rpc.call_id),
                method: None,
                result: Some(ack),
                error: data.error,
                params: None,
            };
            return Forwarded::Deliver { request: req, response, filter: None, is_event: false };
        }
        let filter = match get_composite_filter(&data) {
            Some(f) => Some(f),
            None => copy_text(&req.rule.response_filter),
        };
        let result = if filter.is_none() && data.result.is_none() && data.error.is_none() {
            Some("null".to_owned())
        } else {
            data.result
        };
        let response = JsonRpcApiResponse {
            id: Some(req.rpc.call_id),
            method: data.method,
            result,
            error: data.error,
            params: data.params,
        };
        Forwarded::Deliver { request: req, response, filter, is_event: false }
    }

    /// What a plain HTTP endpoint's body becomes: it must be JSON, and it is
    /// the result for the call of `req`, under `<call id>.<method>` when
    /// `req` is a subscription.
    pub fn handle_non_jsonrpc_response(body: &str, req: &BrokerRequest) -> (r: Result<
        JsonRpcApiResponse,
        BrokerError,
    >)
        ensures
            match json_compact(body@) {
                Some(v) => r matches Ok(resp) && resp.id == Some(req.rpc.call_id)
                    && resp.error.is_none() && resp.params.is_none() && (resp.result matches Some(
                    x,
                ) && x@ == v) && if req.rpc.listen != ListenKind::Call {
                    resp.method matches Some(m) && m@ == decimal(req.rpc.call_id as nat) + "."@
                        + req.rpc.method@
                } else {
                    resp.method.is_none()
                },
                None => r == Err::<JsonRpcApiResponse, BrokerError>(BrokerError::ParseError),
            },
    {
        let value = match compact(body) {
            Some(v) => v,
            None => {
                return Err(BrokerError::ParseError);
            },
        };
        let method = if req.rpc.listen != ListenKind::Call {
            let mut m = decimal_string(req.rpc.call_id);
            m.append(".");
            m.append(req.rpc.method.as_str());
            Some(m)
        } else {
            None
        };
        Ok(JsonRpcApiResponse {
            id: Some(req.rpc.call_id),
            method,
            result: Some(value),
            error: None,
            params: None,
        })
    }
}

/// An event frame reaches the subscriber: when the number that its method
/// starts with is the call id of a stored request and the rule names no
/// handler, the client of that request gets the event under the client's
/// own method, with the event payload as parameters.
pub proof fn lemma_event_routing(
    before: RequestRegistry,
    after: RequestRegistry,
    data: JsonRpcApiResponse,
    r: Forwarded,
    id: u64,
)
    requires
        forward_post(before, after, data, r),
        event_id(data) == Some(id),
        before@.contains_key(id),
        data.result.is_some(),
        before@[id].rule.event_handler.is_none(),
    ensures
        r matches Forwarded::Deliver { request, response, filter, is_event }
            && request == before@[id] && is_event && response.method == Some(before@[id].rpc.method)
            && response.params == data.result,
        before@[id].rpc.listen == ListenKind::Listen ==> after@.contains_key(id),
{
}

} // verus!
