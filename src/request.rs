use vstd::prelude::*;

use crate::text::{decimal, decimal_string};

verus! {

/// Whether a gateway request opens or closes a subscription.
#[derive(Clone, Copy, Debug, PartialEq, Eq, Structural)]
pub enum ListenKind {
    /// A plain call.
    Call,
    /// A request to start receiving an event.
    Listen,
    /// A request to stop receiving an event.
    Unlisten,
}

/// A gateway request as the broker sees it.
#[derive(Debug)]
pub struct RpcRequest {
    /// The client session that sent the request.
    pub session_id: String,
    /// The client-visible request id.
    pub request_id: String,
    /// The id that correlates the request with backend frames.
    pub call_id: u64,
    /// The gateway method.
    pub method: String,
    /// The parameters, a JSON array whose last element is the payload.
    pub params_json: String,
    /// Whether the request opens or closes a subscription.
    pub listen: ListenKind,
}

/// How a gateway method maps onto a backend.
#[derive(Debug)]
pub struct Rule {
    /// The backend method to call, or `static` / `provided`.
    pub alias: String,
    /// The endpoint that serves the rule; the default endpoint when absent.
    pub endpoint: Option<String>,
    /// Filter applied to the outgoing payload.
    pub request_filter: Option<String>,
    /// Filter applied to the backend response.
    pub response_filter: Option<String>,
    /// Filter applied to event payloads.
    pub event_filter: Option<String>,
    /// Filter that decides whether an event is delivered at all.
    pub match_filter: Option<String>,
    /// An in-process method that handles events instead of the client.
    pub event_handler: Option<String>,
}

/// A request in flight, with the rule that routes it.
#[derive(Debug)]
pub struct BrokerRequest {
    pub rpc: RpcRequest,
    pub rule: Rule,
    /// Whether the subscription acknowledgement was already delivered.
    pub subscription_processed: bool,
}

/// The context of a request that an extension sent.
#[derive(Debug)]
pub struct BrokerContext {
    pub app_id: String,
}

/// The errors that the broker reports to clients.
#[derive(Clone, Copy, Debug, PartialEq, Eq, Structural)]
pub enum BrokerError {
    InvalidInput,
    ParseError,
    ServiceNotReady,
    ServiceError,
    SendFailure,
    NotAvailable,
}

impl BrokerError {
    /// The JSON-RPC error code reported for this error.
    pub fn code(&self) -> (r: i64)
        ensures
            r == error_code(*self),
    {
        match self {
            BrokerError::InvalidInput => -32602,
            BrokerError::ParseError => -32700,
            BrokerError::ServiceNotReady => -50200,
            BrokerError::ServiceError => -32603,
            BrokerError::SendFailure => -32603,
            BrokerError::NotAvailable => -50300,
        }
    }
}

/// The JSON-RPC error code of each broker error.
pub open spec fn error_code(e: BrokerError) -> int {
    match e {
        BrokerError::InvalidInput => -32602,
        BrokerError::ParseError => -32700,
        BrokerError::ServiceNotReady => -50200,
        BrokerError::ServiceError => -32603,
        BrokerError::SendFailure => -32603,
        BrokerError::NotAvailable => -50300,
    }
}

/// The name of each broker error, as its message carries it.
pub open spec fn error_name(e: BrokerError) -> Seq<char> {
    match e {
        BrokerError::InvalidInput => "InvalidInput"@,
        BrokerError::ParseError => "ParseError"@,
        BrokerError::ServiceNotReady => "ServiceNotReady"@,
        BrokerError::ServiceError => "ServiceError"@,
        BrokerError::SendFailure => "SendFailure"@,
        BrokerError::NotAvailable => "NotAvailable"@,
    }
}

/// The JSON-RPC error object of a broker error:
/// `{"code":<code>,"message":"<name>"}`. Every code is negative.
pub open spec fn error_object_spec(e: BrokerError) -> Seq<char> {
    "{\"code\":-"@ + decimal((-error_code(e)) as nat) + ",\"message\":\""@ + error_name(e)
        + "\"}"@
}

impl BrokerError {
    /// The name of the error.
    pub fn name(&self) -> (r: &'static str)
        ensures
            r@ == error_name(*self),
    {
        match self {
            BrokerError::InvalidInput => "InvalidInput",
            BrokerError::ParseError => "ParseError",
            BrokerError::ServiceNotReady => "ServiceNotReady",
            BrokerError::ServiceError => "ServiceError",
            BrokerError::SendFailure => "SendFailure",
            BrokerError::NotAvailable => "NotAvailable",
        }
    }

    /// The JSON-RPC error object that clients receive for this error.
    pub fn error_object(&self) -> (r: String)
        ensures
            r@ == error_object_spec(*self),
    {
        let code = self.code();
        let mut out = String::new();
        out.append("{\"code\":-");
        let n = decimal_string((0 - code) as u64);
        out.append(n.as_str());
        out.append(",\"message\":\"");
        out.append(self.name());
        out.append("\"}");
        out
    }
}

pub fn copy_text(o: &Option<String>) -> (r: Option<String>)
    ensures
        r == *o,
{
    match o {
        Some(s) => Some(s.clone()),
        None => None,
    }
}

impl RpcRequest {
    pub open spec fn is_subscription_spec(&self) -> bool {
        self.listen != ListenKind::Call
    }

    /// Whether the request opens or closes a subscription.
    pub fn is_subscription(&self) -> (r: bool)
        ensures
            r == self.is_subscription_spec(),
    {
        self.listen != ListenKind::Call
    }

    pub fn is_listening(&self) -> (r: bool)
        ensures
            r == (self.listen == ListenKind::Listen),
    {
        self.listen == ListenKind::Listen
    }

    pub fn is_unlisten(&self) -> (r: bool)
        ensures
            r == (self.listen == ListenKind::Unlisten),
    {
        self.listen == ListenKind::Unlisten
    }

    /// A field-by-field copy.
    pub fn duplicate(&self) -> (r: RpcRequest)
        ensures
            r == *self,
    {
        RpcRequest {
            session_id: self.session_id.clone(),
            request_id: self.request_id.clone(),
            call_id: self.call_id,
            method: self.method.clone(),
            params_json: self.params_json.clone(),
            listen: self.listen,
        }
    }

    /// The same request under another call id.
    pub fn with_call_id(&self, call_id: u64) -> (r: RpcRequest)
        ensures
            r == (RpcRequest { call_id, ..*self }),
    {
        let mut r = self.duplicate();
        r.call_id = call_id;
        r
    }
}

impl Rule {
    /// A field-by-field copy.
    pub fn duplicate(&self) -> (r: Rule)
        ensures
            r == *self,
    {
        Rule {
            alias: self.alias.clone(),
            endpoint: copy_text(&self.endpoint),
            request_filter: copy_text(&self.request_filter),
            response_filter: copy_text(&self.response_filter),
            event_filter: copy_text(&self.event_filter),
            match_filter: copy_text(&self.match_filter),
            event_handler: copy_text(&self.event_handler),
        }
    }
}

impl BrokerRequest {
    /// A request that has not been acknowledged yet.
    pub fn new(rpc: RpcRequest, rule: Rule) -> (r: BrokerRequest)
        ensures
            r.rpc == rpc,
            r.rule == rule,
            !r.subscription_processed,
    {
        BrokerRequest { rpc, rule, subscription_processed: false }
    }

    /// A field-by-field copy.
    pub fn duplicate(&self) -> (r: BrokerRequest)
        ensures
            r == *self,
    {
        BrokerRequest {
            rpc: self.rpc.duplicate(),
            rule: self.rule.duplicate(),
            subscription_processed: self.subscription_processed,
        }
    }

    pub fn is_subscription_processed(&self) -> (r: bool)
        ensures
            r == self.subscription_processed,
    {
        self.subscription_processed
    }

    /// Whether the registry keeps this request after its first response:
    /// only an active listen does.
    pub open spec fn is_kept_spec(&self) -> bool {
        self.rpc.listen == ListenKind::Listen
    }
}

} // verus!
