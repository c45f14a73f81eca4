use vstd::prelude::*;

use crate::forwarder::{BrokerOutput, JsonRpcApiResponse};
use crate::registry::{RequestRegistry, allocate_post};
use crate::request::{BrokerRequest, ListenKind, RpcRequest, Rule};
use crate::rules::{RuleEngine, first_match};
use crate::text::{eq_ignore_case, equals_ignore_case};

verus! {

/// The endpoint that serves rules that name none: the plugin-aware one.
pub open spec fn default_endpoint() -> Seq<char> {
    "thunder"@
}

/// The endpoint that serves `rule`.
pub open spec fn endpoint_of(rule: Rule) -> Seq<char> {
    match rule.endpoint {
        Some(e) => e@,
        None => default_endpoint(),
    }
}

/// The output of a static rule: an empty result (the JSON string `""`)
/// under its call id, with nothing else.
pub open spec fn static_output_spec(o: BrokerOutput, call_id: u64) -> bool {
    &&& o.data.id == Some(call_id)
    &&& o.data.result matches Some(t) && t@ == "\"\""@
    &&& o.data.error.is_none() && o.data.method.is_none() && o.data.params.is_none()
}

/// The acknowledgement of an unlisten: a success (`null` result, no error)
/// under the call id that the broker gave the unlisten.
pub open spec fn ack_output_spec(o: BrokerOutput, call_id: u64) -> bool {
    &&& o.data.id == Some(call_id)
    &&& o.data.result matches Some(t) && t@ == "null"@
    &&& o.data.error.is_none() && o.data.method.is_none() && o.data.params.is_none()
}

/// What the dispatcher decided for a gateway request.
#[derive(Debug)]
pub enum Dispatch {
    /// No rule, or no endpoint, serves the request.
    NotHandled,
    /// The rule completes without a backend: `output`, an empty result under
    /// the new `call_id`, goes to the forwarder.
    Static { call_id: u64, output: BrokerOutput },
    /// An in-process provider serves the request.
    Provided,
    /// The request goes to `endpoint` under a new call id. An unlisten also
    /// gets an `acknowledgement` for the forwarder, whatever the backend does.
    Forward { endpoint: String, request: BrokerRequest, acknowledgement: Option<BrokerOutput> },
}

/// The broker's shared state: rules, endpoints and in-flight requests.
pub struct EndpointBrokerState {
    pub rule_engine: RuleEngine,
    pub registry: RequestRegistry,
    /// The keys of the endpoints that can be reached.
    pub endpoints: Vec<String>,
}

/// Whether `key` names one of `endpoints`.
pub open spec fn has_endpoint(endpoints: Seq<String>, key: Seq<char>) -> bool {
    exists|i: int| 0 <= i < endpoints.len() && (#[trigger] endpoints[i])@ == key
}

impl EndpointBrokerState {
    pub open spec fn wf(&self) -> bool {
        self.registry.wf()
    }

    /// A broker with these rules, no endpoints, and ids that start after
    /// `start`.
    pub fn new(rule_engine: RuleEngine, start: u64) -> (r: EndpointBrokerState)
        ensures
            r.wf(),
            r.rule_engine == rule_engine,
            r.registry@ == Map::<u64, BrokerRequest>::empty(),
            r.registry.last_id_spec() == start,
            r.endpoints@ == Seq::<String>::empty(),
    {
        EndpointBrokerState {
            rule_engine,
            registry: RequestRegistry::new(start),
            endpoints: Vec::new(),
        }
    }

    /// Makes the endpoint `key` reachable.
    pub fn add_endpoint(&mut self, key: String)
        ensures
            final(self).endpoints@ == old(self).endpoints@.push(key),
            final(self).rule_engine == old(self).rule_engine,
            final(self).registry == old(self).registry,
    {
        self.endpoints.push(key);
    }

    /// Whether the endpoint `key` is reachable.
    pub fn has_endpoint(&self, key: &String) -> (r: bool)
        ensures
            r == has_endpoint(self.endpoints@, key@),
    {
        let mut i: usize = 0;
        while i < self.endpoints.len()
            invariant
                i <= self.endpoints@.len(),
                forall|k: int| 0 <= k < i ==> (#[trigger] self.endpoints@[k])@ != key@,
            decreases self.endpoints.len() - i,
        {
            if self.endpoints[i] == *key {
                return true;
            }
            i = i + 1;
        }
        false
    }

    /// The rule that serves a gateway method.
    pub fn get_rule(&self, rpc: &RpcRequest) -> (r: Option<Rule>)
        ensures
            r == first_match(self.rule_engine@, rpc.method@),
    {
        self.rule_engine.get_rule(rpc.method.as_str())
    }

    /// Routes a gateway request: finds its rule, registers it under a new
    /// call id, and says where it goes.
    pub fn handle_brokerage(&mut self, rpc: RpcRequest) -> (r: Dispatch)
        requires
            old(self).wf(),
        ensures
            final(self).wf(),
            final(self).rule_engine == old(self).rule_engine,
            final(self).endpoints@ == old(self).endpoints@,
            ({
                let before = old(self).registry;
                let after = final(self).registry;
                match first_match(old(self).rule_engine@, rpc.method@) {
                    None => r is NotHandled && after == before,
                    Some(rule) => if rule.alias@ == "static"@ {
                        if before.last_id_spec() < u64::MAX {
                            &&& r matches Dispatch::Static { call_id, output }
                            &&& static_output_spec(output, call_id)
                            &&& allocate_post(before.last_id_spec(), after.last_id_spec(), call_id)
                            &&& after@ == before@.insert(
                                call_id,
                                BrokerRequest { rpc, rule, subscription_processed: false },
                            )
                        } else {
                            r is NotHandled && after == before
                        }
                    } else if eq_ignore_case(rule.alias@, "provided"@) {
                        r is Provided && after == before
                    } else if has_endpoint(old(self).endpoints@, endpoint_of(rule))
                        && before.last_id_spec() < u64::MAX {
                        &&& r matches Dispatch::Forward { endpoint, request, acknowledgement }
                        &&& endpoint@ == endpoint_of(rule)
                        &&& allocate_post(
                            before.last_id_spec(),
                            after.last_id_spec(),
                            request.rpc.call_id,
                        )
                        &&& request == BrokerRequest {
                            rpc: RpcRequest { call_id: request.rpc.call_id, ..rpc },
                            rule,
                            subscription_processed: false,
                        }
                        &&& if rpc.listen == ListenKind::Unlisten {
                            acknowledgement matches Some(a) && ack_output_spec(a, request.rpc.call_id)
                        } else {
                            acknowledgement.is_none()
                        }
                        &&& after@ == before@.insert(
                            request.rpc.call_id,
                            BrokerRequest { rpc, rule, subscription_processed: false },
                        )
                    } else {
                        r is NotHandled && after == before
                    },
                }
            }),
    {
        let rule = match self.get_rule(&rpc) {
            Some(rule) => rule,
            None => {
                return Dispatch::NotHandled;
            },
        };
        let static_alias: String = "static".to_owned();
        if rule.alias == static_alias {
            if !self.registry.can_allocate() {
                return Dispatch::NotHandled;
            }
            let id = self.registry.allocate_id();
            self.registry.insert(id, BrokerRequest::new(rpc, rule));
            let output = BrokerOutput::new(JsonRpcApiResponse {
                id: Some(id),
                method: None,
                result: Some("\"\"".to_owned()),
                error: None,
                params: None,
            });
            return Dispatch::Static { call_id: id, output };
        }
        if equals_ignore_case(rule.alias.as_str(), "provided") {
            return Dispatch::Provided;
        }
        let endpoint: String = match &rule.endpoint {
            Some(e) => e.clone(),
            None => "thunder".to_owned(),
        };
        if !self.has_endpoint(&endpoint) || !self.registry.can_allocate() {
            return Dispatch::NotHandled;
        }
        let id = self.registry.allocate_id();
        let outgoing = BrokerRequest::new(rpc.with_call_id(id), rule.duplicate());
        let acknowledgement = if rpc.listen == ListenKind::Unlisten {
            Some(
                BrokerOutput::new(JsonRpcApiResponse {
                    id: Some(id),
                    method: None,
                    result: Some("null".to_owned()),
                    error: None,
                    params: None,
                }),
            )
        } else {
            None
        };
        self.registry.insert(id, BrokerRequest::new(rpc, rule));
        Dispatch::Forward { endpoint, request: outgoing, acknowledgement }
    }
}

} // verus!
