use vstd::prelude::*;

use crate::composite::{CompositeRequest, CompositeTable, without_id};
use crate::frames::{
    filtered_view,
    shaped_payload,
    update_request,
    activate_frame,
    activate_frame_spec,
    event_frame,
    event_frame_spec,
    request_frame_spec,
    status_frame,
    status_frame_spec,
};
use crate::forwarder::JsonRpcApiResponse;
use crate::json::{
    array_items,
    composite_response,
    json_array_items,
    json_member,
    json_string_value,
    last_response,
    member,
    string_value,
};
use crate::plugin::{PluginState, StatusTable, pending_of, state_named, state_of};
use crate::request::{BrokerError, BrokerRequest, ListenKind};
use crate::subscriptions::{
    SubscriptionRegistry,
    key_of,
    lemma_listen_twice,
    of_session,
    other_sessions,
    replace_post,
};
use crate::text::{first_segment, first_segment_of, head_segments, last_segment, split_last_dot};

verus! {

/// The frame that registers (or, with `register` false, unregisters) the
/// event of subscription `e` under its own call id. The callsign is the
/// alias up to its last `.`, the event what follows it.
pub open spec fn subscription_frame_spec(e: BrokerRequest, register: bool) -> Seq<char> {
    event_frame_spec(
        e.rpc.call_id,
        head_segments(e.rule.alias@),
        register,
        last_segment(e.rule.alias@),
    )
}

/// The frame that registers (or unregisters) the event of `alias` under the
/// call id `id`.
pub open spec fn alias_frame_spec(id: u64, alias: Seq<char>, register: bool) -> Seq<char> {
    event_frame_spec(id, head_segments(alias), register, last_segment(alias))
}

/// The unregister frame of the subscription that `req` displaces or ends, if
/// there is one: under the displaced call id, for the event of `req`'s rule.
pub open spec fn unregister_frames(prior: Option<BrokerRequest>, req: BrokerRequest) -> Seq<
    Seq<char>,
> {
    match prior {
        Some(p) => seq![alias_frame_spec(p.rpc.call_id, req.rule.alias@, false)],
        None => Seq::empty(),
    }
}

/// The characters of an optional string.
pub open spec fn text_opt(o: Option<String>) -> Option<Seq<char>> {
    match o {
        Some(t) => Some(t@),
        None => None,
    }
}

/// The plugin that serves an alias: its first dotted segment.
pub open spec fn plugin_of(alias: Seq<char>) -> Seq<char> {
    first_segment(alias)
}

/// The composite table after a plain call went out at `now`, as call ids,
/// response texts and times: a `response` object in the parameters is
/// remembered under the call id, replacing any earlier entry.
pub open spec fn composite_after(
    before: Seq<CompositeRequest>,
    req: BrokerRequest,
    now: u64,
) -> Seq<(u64, Seq<char>, u64)> {
    match json_array_items(req.rpc.params_json@) {
        Some(items) => match last_response(items) {
            Some(x) => table_view(without_id(before, req.rpc.call_id)).push(
                (req.rpc.call_id, x, now),
            ),
            None => table_view(before),
        },
        None => table_view(before),
    }
}

/// The composite table as call ids, response texts and times.
pub open spec fn table_view(s: Seq<CompositeRequest>) -> Seq<(u64, Seq<char>, u64)> {
    s.map_values(|e: CompositeRequest| (e.call_id, e.response@, e.created_ms))
}

/// What `prepare_request` does, from the driver before to the driver after.
pub open spec fn prepare_post(
    before: ThunderBroker,
    after: ThunderBroker,
    req: BrokerRequest,
    filtered: Option<Option<String>>,
    now: u64,
    r: Result<Vec<String>, BrokerError>,
) -> bool {
        let listen = req.rpc.listen;
        if listen == ListenKind::Call {
            let f = filtered_view(filtered);
            &&& after.subscriptions == before.subscriptions
            &&& match (r, shaped_payload(req, f)) {
                (Ok(frames), Ok(p)) => {
                    &&& frames@.len() == 1
                    &&& frames@[0]@ == request_frame_spec(
                        req.rpc.call_id,
                        req.rule.alias@,
                        p,
                    )
                    &&& table_view(after.composite@) == composite_after(
                        before.composite@,
                        req,
                        now,
                    )
                },
                (Err(e), Err(g)) => e == g && after.composite == before.composite,
                _ => false,
            }
        } else {
            &&& after.composite == before.composite
            &&& r matches Ok(frames)
            &&& if listen == ListenKind::Listen {
                exists|prior: Option<BrokerRequest>|
                    #![trigger replace_post(before.subscriptions@, after.subscriptions@, req, true, prior)]
                    {
                        &&& replace_post(
                            before.subscriptions@,
                            after.subscriptions@,
                            req,
                            true,
                            prior,
                        )
                        &&& frames@.map_values(|f: String| f@) == unregister_frames(prior, req)
                            + seq![subscription_frame_spec(req, true)]
                    }
            } else {
                exists|prior: Option<BrokerRequest>|
                    #![trigger replace_post(before.subscriptions@, after.subscriptions@, req, false, prior)]
                    {
                        &&& replace_post(
                            before.subscriptions@,
                            after.subscriptions@,
                            req,
                            false,
                            prior,
                        )
                        &&& frames@.map_values(|f: String| f@) == unregister_frames(prior, req)
                    }
            }
        }
}

/// What `check_and_generate_plugin_activation_request` does to the plugin
/// table and what it returns.
pub open spec fn gate_post(
    before: ThunderBroker,
    after: ThunderBroker,
    req: BrokerRequest,
    control_id: u64,
    r: Result<Vec<String>, BrokerError>,
) -> bool {
        let c = plugin_of(req.rule.alias@);
        let st = state_of(before.status@, c);
        let held = pending_of(after.status@, c) == pending_of(before.status@, c).push(
            req,
        );
        let kept = pending_of(after.status@, c) == pending_of(before.status@, c);
        &&& state_of(after.status@, c) == st
        &&& forall|d: Seq<char>|
            d != c ==> state_of(after.status@, d) == state_of(before.status@, d)
                && pending_of(after.status@, d) == pending_of(before.status@, d)
        &&& match st {
            PluginState::Unknown => held && (r matches Ok(v) && v@.len() == 1 && v@[0]@
                == status_frame_spec(control_id, c)),
            PluginState::Deactivated => held && (r matches Ok(v) && v@.len() == 1
                && v@[0]@ == activate_frame_spec(control_id, c)),
            PluginState::Activating => held && r == Err::<Vec<String>, BrokerError>(
                BrokerError::ServiceNotReady,
            ),
            PluginState::Missing => kept && r == Err::<Vec<String>, BrokerError>(
                BrokerError::ServiceError,
            ),
            PluginState::Activated => kept && (r matches Ok(v) && v@.len() == 0),
        }
}

/// A member of a JSON object that is a string, read as that string.
pub open spec fn string_member_of(text: Seq<char>, key: Seq<char>) -> Option<Seq<char>> {
    match json_member(text, key) {
        Some(v) => json_string_value(v),
        None => None,
    }
}

/// The state in the controller's answer to a status query: the `state` of
/// the first entry of the result array.
pub open spec fn status_answer_state(result: Option<String>) -> Option<PluginState> {
    match result {
        Some(r) => match json_array_items(r@) {
            Some(items) => if items.len() > 0 {
                match string_member_of(items[0], "state"@) {
                    Some(n) => state_named(n),
                    None => None,
                }
            } else {
                None
            },
            None => None,
        },
        None => None,
    }
}

/// What a backend frame says of plugin states. It is a controller frame when
/// its method is the state-change event `state_event`, or when it answers a
/// status query for `queried`; other frames are not (`None`). A state change
/// reports the `callsign` and `state` of its parameters; an answer reports
/// `Missing` when it is an error, else the state it lists; a controller frame
/// that names no known state reports nothing (`Some(None)`).
pub open spec fn report_spec(
    resp: JsonRpcApiResponse,
    state_event: Seq<char>,
    queried: Option<Seq<char>>,
) -> Option<Option<(Seq<char>, PluginState)>> {
    if resp.method matches Some(m) && m@ == state_event {
        Some(
            match resp.params {
                Some(p) => match (string_member_of(p@, "callsign"@), string_member_of(p@, "state"@)) {
                    (Some(c), Some(n)) => match state_named(n) {
                        Some(st) => Some((c, st)),
                        None => None,
                    },
                    _ => None,
                },
                None => None,
            },
        )
    } else {
        match queried {
            Some(c) => Some(
                if resp.error.is_some() {
                    Some((c, PluginState::Missing))
                } else {
                    match status_answer_state(resp.result) {
                        Some(st) => Some((c, st)),
                        None => None,
                    }
                },
            ),
            None => None,
        }
    }
}

/// The decisions of the plugin-aware WebSocket driver: its subscriptions,
/// the state of each plugin with the requests that wait for it, and the
/// composite requests in flight.
pub struct ThunderBroker {
    pub subscriptions: SubscriptionRegistry,
    pub status: StatusTable<BrokerRequest>,
    pub composite: CompositeTable,
}

impl ThunderBroker {
    pub open spec fn wf(&self) -> bool {
        &&& self.subscriptions.wf()
        &&& self.status.wf()
        &&& self.composite.wf()
    }

    pub fn new() -> (r: ThunderBroker)
        ensures
            r.wf(),
            r.subscriptions@ == Seq::<BrokerRequest>::empty(),
            r.composite@ == Seq::<CompositeRequest>::empty(),
            forall|c: Seq<char>|
                state_of(r.status@, c) == PluginState::Unknown && pending_of(r.status@, c)
                    == Seq::<BrokerRequest>::empty(),
    {
        ThunderBroker {
            subscriptions: SubscriptionRegistry::new(),
            status: StatusTable::new(),
            composite: CompositeTable::new(),
        }
    }

    /// Splits an alias into the callsign (up to its last `.`) and the method
    /// (after it).
    pub fn get_callsign_and_method_from_alias(alias: &str) -> (r: (String, String))
        ensures
            r.0@ == head_segments(alias@),
            r.1@ == last_segment(alias@),
    {
        split_last_dot(alias)
    }

    /// The frame that registers or unregisters the event of `alias` under `id`.
    pub fn alias_frame(id: u64, alias: &str, register: bool) -> (r: String)
        ensures
            r@ == alias_frame_spec(id, alias@, register),
    {
        let (callsign, event) = Self::get_callsign_and_method_from_alias(alias);
        event_frame(id, callsign.as_str(), register, event.as_str())
    }

    /// The frame that registers or unregisters the event of `e`.
    pub fn subscription_frame(e: &BrokerRequest, register: bool) -> (r: String)
        ensures
            r@ == subscription_frame_spec(*e, register),
    {
        let (callsign, event) = Self::get_callsign_and_method_from_alias(e.rule.alias.as_str());
        event_frame(e.rpc.call_id, callsign.as_str(), register, event.as_str())
    }

    /// The frame that subscribes to the controller's plugin state changes,
    /// sent once the socket is up.
    pub fn state_change_frame(control_id: u64) -> (r: String)
        ensures
            r@ == event_frame_spec(control_id, "Controller.1"@, true, "statechange"@),
    {
        event_frame(control_id, "Controller.1", true, "statechange")
    }

    /// The frames that carry `req` to the backend, once its plugin is active.
    /// A listen displaces the subscription that had its session and method
    /// (unregistering it) and registers itself; an unlisten unregisters the
    /// subscription it ends, if any; a plain call becomes one request, and a
    /// `response` object in its parameters is remembered under its call id.
    /// `filtered` is the request filter's output, when the rule has one.
    pub fn prepare_request(
        &mut self,
        req: &BrokerRequest,
        filtered: Option<Option<String>>,
        now: u64,
    ) -> (r: Result<Vec<String>, BrokerError>)
        requires
            old(self).wf(),
        ensures
            final(self).wf(),
            final(self).status == old(self).status,
            prepare_post(*old(self), *final(self), *req, filtered, now, r),
    {
        let mut frames: Vec<String> = Vec::new();
        if req.rpc.listen == ListenKind::Call {
            let frame = match update_request(req, filtered) {
                Ok(t) => t,
                Err(e) => {
                    return Err(e);
                },
            };
            frames.push(frame);
            match composite_response(req.rpc.params_json.as_str()) {
                Some(x) => {
                    self.composite.register(req.rpc.call_id, x, now);
                    proof {
                        assert(table_view(self.composite@) =~= composite_after(
                            old(self).composite@,
                            *req,
                            now,
                        ));
                    }
                },
                None => {
                    assert(table_view(self.composite@) =~= composite_after(
                        old(self).composite@,
                        *req,
                        now,
                    ));
                },
            }
            Ok(frames)
        } else {
            let prior = if req.rpc.listen == ListenKind::Listen {
                self.subscriptions.subscribe(req.duplicate())
            } else {
                self.subscriptions.unsubscribe(req)
            };
            match &prior {
                Some(p) => {
                    frames.push(Self::alias_frame(p.rpc.call_id, req.rule.alias.as_str(), false));
                },
                None => {},
            }
            if req.rpc.listen == ListenKind::Listen {
                frames.push(Self::subscription_frame(req, true));
            }
            proof {
                assert(replace_post(
                    old(self).subscriptions@,
                    self.subscriptions@,
                    *req,
                    req.rpc.listen == ListenKind::Listen,
                    prior,
                ));
                if req.rpc.listen == ListenKind::Listen {
                    assert(frames@.map_values(|f: String| f@) =~= unregister_frames(prior, *req)
                        + seq![subscription_frame_spec(*req, true)]);
                } else {
                    assert(frames@.map_values(|f: String| f@) =~= unregister_frames(prior, *req));
                }
            }
            Ok(frames)
        }
    }

    /// Holds a request whose plugin is not active yet. For a plugin in an
    /// unknown state the request waits and a status query goes out; for one
    /// that is deactivated it waits and an activation request goes out; for
    /// one that is activating it waits and the send fails with
    /// `ServiceNotReady`; a missing plugin fails with `ServiceError`. For an
    /// active plugin nothing is held and no frame is due.
    pub fn check_and_generate_plugin_activation_request(
        &mut self,
        req: &BrokerRequest,
        control_id: u64,
    ) -> (r: Result<Vec<String>, BrokerError>)
        requires
            old(self).wf(),
        ensures
            final(self).wf(),
            final(self).subscriptions == old(self).subscriptions,
            final(self).composite == old(self).composite,
            gate_post(*old(self), *final(self), *req, control_id, r),
            state_of(old(self).status@, plugin_of(req.rule.alias@)) == PluginState::Activated
                ==> final(self).status == old(self).status,
    {
        let callsign = first_segment_of(req.rule.alias.as_str());
        let state = self.status.get_state(&callsign);
        let mut frames: Vec<String> = Vec::new();
        match state {
            PluginState::Unknown => {
                self.status.enqueue(&callsign, req.duplicate());
                frames.push(status_frame(control_id, callsign.as_str()));
                Ok(frames)
            },
            PluginState::Missing => Err(BrokerError::ServiceError),
            PluginState::Activating => {
                self.status.enqueue(&callsign, req.duplicate());
                Err(BrokerError::ServiceNotReady)
            },
            PluginState::Deactivated => {
                self.status.enqueue(&callsign, req.duplicate());
                frames.push(activate_frame(control_id, callsign.as_str()));
                Ok(frames)
            },
            PluginState::Activated => Ok(frames),
        }
    }

    /// Sends `req` through the driver: held while its plugin is not active,
    /// turned into frames once it is.
    pub fn handle_request(
        &mut self,
        req: &BrokerRequest,
        filtered: Option<Option<String>>,
        control_id: u64,
        now: u64,
    ) -> (r: Result<Vec<String>, BrokerError>)
        requires
            old(self).wf(),
        ensures
            final(self).wf(),
            if state_of(old(self).status@, plugin_of(req.rule.alias@)) == PluginState::Activated {
                prepare_post(*old(self), *final(self), *req, filtered, now, r) && final(self).status
                    == old(self).status
            } else {
                gate_post(*old(self), *final(self), *req, control_id, r)
            },
    {
        let gate = self.check_and_generate_plugin_activation_request(req, control_id);
        match gate {
            Ok(frames) => {
                if frames.len() > 0 {
                    Ok(frames)
                } else {
                    self.prepare_request(req, filtered, now)
                }
            },
            Err(e) => Err(e),
        }
    }

    /// Reads a string member of a JSON object.
    fn string_member(text: &str, key: &str) -> (r: Option<String>)
        ensures
            match (r, string_member_of(text@, key@)) {
                (Some(x), Some(y)) => x@ == y,
                (None, None) => true,
                _ => false,
            },
    {
        match member(text, key) {
            Some(v) => string_value(v.as_str()),
            None => None,
        }
    }

    /// What a backend frame says of plugin states; see `report_spec`.
    /// `queried` is the plugin whose status query the frame's id answers.
    pub fn plugin_report(resp: &JsonRpcApiResponse, state_event: &str, queried: Option<String>) -> (r:
        Option<Option<(String, PluginState)>>)
        ensures
            match (r, report_spec(*resp, state_event@, text_opt(queried))) {
                (Some(Some((c, st))), Some(Some((d, su)))) => c@ == d && st == su,
                (Some(None), Some(None)) => true,
                (None, None) => true,
                _ => false,
            },
    {
        let wanted: String = state_event.to_owned();
        let is_state_event = match &resp.method {
            Some(m) => *m == wanted,
            None => false,
        };
        if is_state_event {
            let report = match &resp.params {
                Some(p) => {
                    let callsign = Self::string_member(p.as_str(), "callsign");
                    let name = Self::string_member(p.as_str(), "state");
                    match (callsign, name) {
                        (Some(c), Some(n)) => match PluginState::from_name(n.as_str()) {
                            Some(st) => Some((c, st)),
                            None => None,
                        },
                        _ => None,
                    }
                },
                None => None,
            };
            return Some(report);
        }
        let c = match queried {
            Some(c) => c,
            None => {
                return None;
            },
        };
        if resp.error.is_some() {
            return Some(Some((c, PluginState::Missing)));
        }
        let state = match &resp.result {
            Some(r) => match array_items(r.as_str()) {
                Some(items) => {
                    proof {
                        assert(items@.len() == items@.map_values(|x: String| x@).len());
                    }
                    if items.len() > 0 {
                        assert(items@.map_values(|x: String| x@)[0] == items@[0]@);
                        match Self::string_member(items[0].as_str(), "state") {
                            Some(n) => PluginState::from_name(n.as_str()),
                            None => None,
                        }
                    } else {
                        None
                    }
                },
                None => None,
            },
            None => None,
        };
        match state {
            Some(st) => Some(Some((c, st))),
            None => Some(None),
        }
    }

    /// Records a plugin state that the controller reported; when the plugin
    /// became active, the requests that waited for it come back in the order
    /// they arrived, to be sent.
    pub fn on_state_change(&mut self, callsign: &String, state: PluginState) -> (r: Vec<
        BrokerRequest,
    >)
        requires
            old(self).wf(),
        ensures
            final(self).wf(),
            final(self).subscriptions == old(self).subscriptions,
            final(self).composite == old(self).composite,
            state_of(final(self).status@, callsign@) == state,
            r@ == (if state == PluginState::Activated {
                pending_of(old(self).status@, callsign@)
            } else {
                Seq::empty()
            }),
            pending_of(final(self).status@, callsign@) == (if state == PluginState::Activated {
                Seq::empty()
            } else {
                pending_of(old(self).status@, callsign@)
            }),
            forall|c: Seq<char>|
                c != callsign@ ==> state_of(final(self).status@, c) == state_of(old(self).status@, c)
                    && pending_of(final(self).status@, c) == pending_of(old(self).status@, c),
    {
        self.status.set_state(callsign, state)
    }

    /// Ends every subscription of `session`: they leave the registry, and one
    /// unregister frame goes out for each, in order.
    pub fn cleanup_session(&mut self, session: &str) -> (r: Vec<String>)
        requires
            old(self).wf(),
        ensures
            final(self).wf(),
            final(self).status == old(self).status,
            final(self).composite == old(self).composite,
            final(self).subscriptions@ == other_sessions(old(self).subscriptions@, session@),
            forall|i: int|
                0 <= i < final(self).subscriptions@.len() ==> (
                #[trigger] final(self).subscriptions@[i]).rpc.session_id@ != session@,
            r@.len() == of_session(old(self).subscriptions@, session@).len(),
            forall|i: int|
                0 <= i < r@.len() ==> (#[trigger] r@[i])@ == subscription_frame_spec(
                    of_session(old(self).subscriptions@, session@)[i],
                    false,
                ),
    {
        let drained = self.subscriptions.drain(session);
        Self::frames_for(&drained, false)
    }

    /// One register frame for every active subscription, each under its own
    /// call id, as sent after the socket was re-established.
    pub fn replay_subscriptions(&self) -> (r: Vec<String>)
        requires
            self.wf(),
        ensures
            r@.len() == self.subscriptions@.len(),
            forall|i: int|
                0 <= i < r@.len() ==> (#[trigger] r@[i])@ == subscription_frame_spec(
                    self.subscriptions@[i],
                    true,
                ),
    {
        let mut out: Vec<String> = Vec::new();
        let mut i: usize = 0;
        while i < self.subscriptions.len()
            invariant
                i <= self.subscriptions@.len(),
                out@.len() == i,
                forall|k: int|
                    0 <= k < i ==> (#[trigger] out@[k])@ == subscription_frame_spec(
                        self.subscriptions@[k],
                        true,
                    ),
            decreases self.subscriptions@.len() - i,
        {
            let e = self.subscriptions.entry(i);
            out.push(Self::subscription_frame(&e, true));
            i = i + 1;
        }
        out
    }

    /// The register or unregister frame of each request, in order.
    fn frames_for(list: &Vec<BrokerRequest>, register: bool) -> (r: Vec<String>)
        ensures
            r@.len() == list@.len(),
            forall|i: int|
                0 <= i < r@.len() ==> (#[trigger] r@[i])@ == subscription_frame_spec(
                    list@[i],
                    register,
                ),
    {
        let mut out: Vec<String> = Vec::new();
        let mut i: usize = 0;
        while i < list.len()
            invariant
                i <= list@.len(),
                out@.len() == i,
                forall|k: int|
                    0 <= k < i ==> (#[trigger] out@[k])@ == subscription_frame_spec(
                        list@[k],
                        register,
                    ),
            decreases list@.len() - i,
        {
            out.push(Self::subscription_frame(&list[i], register));
            i = i + 1;
        }
        out
    }
}

/// A request for a plugin in an unknown state does not go out: only a
/// status query does, and the request waits. Once the plugin is reported
/// active, the requests that waited come back in the order they arrived.
pub proof fn lemma_activation_gating(
    b0: ThunderBroker,
    b1: ThunderBroker,
    b2: ThunderBroker,
    x: BrokerRequest,
    y: BrokerRequest,
    id1: u64,
    id2: u64,
    r1: Result<Vec<String>, BrokerError>,
    r2: Result<Vec<String>, BrokerError>,
    released: Seq<BrokerRequest>,
)
    requires
        plugin_of(x.rule.alias@) == plugin_of(y.rule.alias@),
        state_of(b0.status@, plugin_of(x.rule.alias@)) == PluginState::Unknown,
        pending_of(b0.status@, plugin_of(x.rule.alias@)) == Seq::<BrokerRequest>::empty(),
        gate_post(b0, b1, x, id1, r1),
        gate_post(b1, b2, y, id2, r2),
        released == pending_of(b2.status@, plugin_of(x.rule.alias@)),
    ensures
        r1 matches Ok(v) && v@.len() == 1 && v@[0]@ == status_frame_spec(
            id1,
            plugin_of(x.rule.alias@),
        ),
        r2 matches Ok(v) && v@.len() == 1 && v@[0]@ == status_frame_spec(
            id2,
            plugin_of(x.rule.alias@),
        ),
        released == seq![x, y],
{
    assert(pending_of(b1.status@, plugin_of(x.rule.alias@)) =~= seq![x]);
    assert(released =~= seq![x, y]);
}

/// Two listens for the same session and method, prepared one after the
/// other: the driver keeps one subscription for them, the later one, and the
/// second preparation sends the unregister of the earlier call id once, for
/// the listened event, then the register of the later one.
pub proof fn lemma_listen_twice_frames(
    b0: ThunderBroker,
    b1: ThunderBroker,
    b2: ThunderBroker,
    x: BrokerRequest,
    y: BrokerRequest,
    f1: Option<Option<String>>,
    f2: Option<Option<String>>,
    n1: u64,
    n2: u64,
    r1: Result<Vec<String>, BrokerError>,
    r2: Result<Vec<String>, BrokerError>,
)
    requires
        b0.wf(),
        b1.wf(),
        b2.wf(),
        x.rpc.listen == ListenKind::Listen,
        y.rpc.listen == ListenKind::Listen,
        key_of(x) == key_of(y),
        prepare_post(b0, b1, x, f1, n1, r1),
        prepare_post(b1, b2, y, f2, n2, r2),
    ensures
        r2 matches Ok(v) && v@.map_values(|f: String| f@) == seq![
            alias_frame_spec(x.rpc.call_id, y.rule.alias@, false),
            subscription_frame_spec(y, true),
        ],
        b2.subscriptions@.len() > 0 && b2.subscriptions@.last() == y,
        forall|j: int|
            0 <= j < b2.subscriptions@.len() && key_of(#[trigger] b2.subscriptions@[j]) == key_of(y)
                ==> j == b2.subscriptions@.len() - 1,
{
    let s0 = b0.subscriptions@;
    let s1 = b1.subscriptions@;
    let s2 = b2.subscriptions@;
    let p1 = choose|p: Option<BrokerRequest>| #[trigger] replace_post(s0, s1, x, true, p);
    let p2 = choose|p: Option<BrokerRequest>|
        #[trigger] replace_post(s1, s2, y, true, p) && (r2 matches Ok(v) && v@.map_values(
            |f: String| f@,
        ) == unregister_frames(p, y) + seq![subscription_frame_spec(y, true)]);
    lemma_listen_twice(s0, s1, s2, x, y, p1, p2);
    assert(unregister_frames(p2, y) + seq![subscription_frame_spec(y, true)] =~= seq![
        alias_frame_spec(x.rpc.call_id, y.rule.alias@, false),
        subscription_frame_spec(y, true),
    ]);
}

} // verus!
