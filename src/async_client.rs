use vstd::prelude::*;

use crate::forwarder::JsonRpcApiResponse;
use crate::frames::{
    activate_frame,
    activate_frame_spec,
    request_frame,
    request_frame_spec,
    status_frame,
    status_frame_spec,
};
use crate::json::{json_quoted, quote};
use crate::registry::{IdCounter, allocate_post};
use crate::plugin::{PluginState, StatusTable, pending_of, state_of};
use crate::request::{BrokerError, copy_text};
use crate::text::{head_segments, last_segment, split_last_dot};

verus! {

/// A request of the device channel.
#[derive(Debug)]
pub enum DeviceChannelRequest {
    /// A call of a backend method, with its parameters as JSON text.
    Call { method: String, params: Option<String> },
    /// A request to receive the events of a backend method.
    Subscribe { method: String },
    /// A request to stop receiving them.
    Unsubscribe { method: String },
}

/// A device-channel request under the id that correlates its response.
#[derive(Debug)]
pub struct ThunderAsyncRequest {
    pub id: u64,
    pub request: DeviceChannelRequest,
}

impl ThunderAsyncRequest {
    /// The request under a fresh id from `ids`, greater than every id that
    /// `ids` handed out before.
    pub fn new(ids: &mut IdCounter, request: DeviceChannelRequest) -> (r: ThunderAsyncRequest)
        requires
            old(ids).last_spec() < u64::MAX,
        ensures
            allocate_post(old(ids).last_spec(), final(ids).last_spec(), r.id),
            r.request == request,
    {
        let id = ids.next_id();
        ThunderAsyncRequest { id, request }
    }
}

/// What came back for a device-channel request.
#[derive(Debug)]
pub struct ThunderAsyncResponse {
    pub id: Option<u64>,
    pub result: Result<JsonRpcApiResponse, BrokerError>,
}

impl ThunderAsyncResponse {
    /// A response from the backend, under the id it carries.
    pub fn new_response(response: JsonRpcApiResponse) -> (r: ThunderAsyncResponse)
        ensures
            r.id == response.id,
            r.result == Ok::<JsonRpcApiResponse, BrokerError>(response),
    {
        ThunderAsyncResponse { id: response.id, result: Ok(response) }
    }

    /// A failure of the request `id`.
    pub fn new_error(id: u64, e: BrokerError) -> (r: ThunderAsyncResponse)
        ensures
            r.id == Some(id),
            r.result == Err::<JsonRpcApiResponse, BrokerError>(e),
    {
        ThunderAsyncResponse { id: Some(id), result: Err(e) }
    }

    /// The method of the response, if it succeeded and has one.
    pub fn get_method(&self) -> (r: Option<String>)
        ensures
            r == match self.result {
                Ok(resp) => resp.method,
                Err(_) => None,
            },
    {
        match &self.result {
            Ok(resp) => copy_text(&resp.method),
            Err(_) => None,
        }
    }

    /// The id of the response, if it succeeded and has one.
    pub fn get_id(&self) -> (r: Option<u64>)
        ensures
            r == match self.result {
                Ok(resp) => resp.id,
                Err(_) => None,
            },
    {
        match &self.result {
            Ok(resp) => resp.id,
            Err(_) => None,
        }
    }
}

impl DeviceChannelRequest {
    pub open spec fn method_spec(&self) -> Seq<char> {
        match *self {
            DeviceChannelRequest::Call { method, .. } => method@,
            DeviceChannelRequest::Subscribe { method } => method@,
            DeviceChannelRequest::Unsubscribe { method } => method@,
        }
    }

    /// The backend method the request names.
    pub fn method(&self) -> (r: &String)
        ensures
            r@ == self.method_spec(),
    {
        match self {
            DeviceChannelRequest::Call { method, .. } => method,
            DeviceChannelRequest::Subscribe { method } => method,
            DeviceChannelRequest::Unsubscribe { method } => method,
        }
    }
}

/// The parameters that register or unregister the client's events:
/// `{"event":<event>,"id":"client.events"}`.
pub open spec fn client_event_params(event: Seq<char>) -> Seq<char> {
    "{\"event\":"@ + json_quoted(event) + ",\"id\":\"client.events\"}"@
}

/// The frame that carries a device-channel request under `id`: a call goes
/// out as it is (with `null` parameters when it has none); a subscription
/// registers, and an unsubscription unregisters, the event after the last
/// `.` of the method with the plugin before it.
pub open spec fn device_frame_spec(id: u64, request: DeviceChannelRequest) -> Seq<char> {
    match request {
        DeviceChannelRequest::Call { method, params } => request_frame_spec(
            id,
            method@,
            Some(
                match params {
                    Some(p) => p@,
                    None => "null"@,
                },
            ),
        ),
        DeviceChannelRequest::Subscribe { method } => request_frame_spec(
            id,
            head_segments(method@) + ".register"@,
            Some(client_event_params(last_segment(method@))),
        ),
        DeviceChannelRequest::Unsubscribe { method } => request_frame_spec(
            id,
            head_segments(method@) + ".unregister"@,
            Some(client_event_params(last_segment(method@))),
        ),
    }
}

/// The device-side client of the plugin-aware backend: it holds requests for
/// plugins that are not active yet.
pub struct ThunderAsyncClient {
    pub status: StatusTable<ThunderAsyncRequest>,
}

impl ThunderAsyncClient {
    pub open spec fn wf(&self) -> bool {
        self.status.wf()
    }

    pub fn new() -> (r: ThunderAsyncClient)
        ensures
            r.wf(),
            forall|c: Seq<char>|
                state_of(r.status@, c) == PluginState::Unknown && pending_of(r.status@, c)
                    == Seq::<ThunderAsyncRequest>::empty(),
    {
        ThunderAsyncClient { status: StatusTable::new() }
    }

    /// The frame of a request whose plugin is active.
    pub fn request_frame(request: &ThunderAsyncRequest) -> (r: String)
        ensures
            r@ == device_frame_spec(request.id, request.request),
    {
        match &request.request {
            DeviceChannelRequest::Call { method, params } => {
                let p = match params {
                    Some(p) => p.clone(),
                    None => "null".to_owned(),
                };
                request_frame(request.id, method.as_str(), Some(p.as_str()))
            },
            DeviceChannelRequest::Subscribe { method } => {
                Self::event_frame(request.id, method.as_str(), ".register")
            },
            DeviceChannelRequest::Unsubscribe { method } => {
                Self::event_frame(request.id, method.as_str(), ".unregister")
            },
        }
    }

    fn event_frame(id: u64, method: &str, action: &str) -> (r: String)
        ensures
            r@ == request_frame_spec(
                id,
                head_segments(method@) + action@,
                Some(client_event_params(last_segment(method@))),
            ),
    {
        let (callsign, event) = split_last_dot(method);
        let mut target = callsign;
        target.append(action);
        let mut params = String::new();
        params.append("{\"event\":");
        let q = quote(event.as_str());
        params.append(q.as_str());
        params.append(",\"id\":\"client.events\"}");
        request_frame(id, target.as_str(), Some(params.as_str()))
    }

    /// The frames that carry `request`, or why it cannot go. A method without
    /// an event part is invalid. For a plugin in an unknown state the request
    /// waits and a status query goes out; for a deactivated one it waits and
    /// an activation request goes out; an activating plugin is not ready and
    /// a missing one fails; an active plugin gets the request's own frame.
    pub fn prepare_request(&mut self, request: &ThunderAsyncRequest, control_id: u64) -> (r:
        Result<Vec<String>, BrokerError>)
        requires
            old(self).wf(),
        ensures
            final(self).wf(),
            ({
                let m = request.request.method_spec();
                let c = head_segments(m);
                let st = state_of(old(self).status@, c);
                let held = pending_of(final(self).status@, c) == pending_of(old(self).status@, c).push(
                    *request,
                );
                let kept = final(self).status@ == old(self).status@;
                if last_segment(m).len() == 0 {
                    kept && r == Err::<Vec<String>, BrokerError>(BrokerError::InvalidInput)
                } else {
                    match st {
                        PluginState::Unknown => held && (r matches Ok(v) && v@.len() == 1 && v@[0]@
                            == status_frame_spec(control_id, c)),
                        PluginState::Deactivated => held && (r matches Ok(v) && v@.len() == 1
                            && v@[0]@ == activate_frame_spec(control_id, c)),
                        PluginState::Activating => kept && r == Err::<Vec<String>, BrokerError>(
                            BrokerError::ServiceNotReady,
                        ),
                        PluginState::Missing => kept && r == Err::<Vec<String>, BrokerError>(
                            BrokerError::ServiceError,
                        ),
                        PluginState::Activated => kept && (r matches Ok(v) && v@.len() == 1
                            && v@[0]@ == device_frame_spec(request.id, request.request)),
                    }
                }
            }),
    {
        let (callsign, event) = split_last_dot(request.request.method().as_str());
        if event.as_str().is_empty() {
            return Err(BrokerError::InvalidInput);
        }
        let mut frames: Vec<String> = Vec::new();
        match self.status.get_state(&callsign) {
            PluginState::Unknown => {
                self.status.enqueue(&callsign, request.duplicate());
                frames.push(status_frame(control_id, callsign.as_str()));
                Ok(frames)
            },
            PluginState::Missing => Err(BrokerError::ServiceError),
            PluginState::Activating => Err(BrokerError::ServiceNotReady),
            PluginState::Deactivated => {
                self.status.enqueue(&callsign, request.duplicate());
                frames.push(activate_frame(control_id, callsign.as_str()));
                Ok(frames)
            },
            PluginState::Activated => {
                frames.push(Self::request_frame(request));
                Ok(frames)
            },
        }
    }

    /// Records a plugin state that the controller reported; when the plugin
    /// became active, the requests that waited for it come back in the order
    /// they arrived.
    pub fn on_state_change(&mut self, callsign: &String, state: PluginState) -> (r: Vec<
        ThunderAsyncRequest,
    >)
        requires
            old(self).wf(),
        ensures
            final(self).wf(),
            state_of(final(self).status@, callsign@) == state,
            r@ == (if state == PluginState::Activated {
                pending_of(old(self).status@, callsign@)
            } else {
                Seq::empty()
            }),
            pending_of(final(self).status@, callsign@) == (if state == PluginState::Activated {
                Seq::empty()
            } else {
                pending_of(old(self).status@, callsign@)
            }),
            forall|c: Seq<char>|
                c != callsign@ ==> state_of(final(self).status@, c) == state_of(old(self).status@, c)
                    && pending_of(final(self).status@, c) == pending_of(old(self).status@, c),
    {
        self.status.set_state(callsign, state)
    }
}

impl DeviceChannelRequest {
    /// A field-by-field copy.
    pub fn duplicate(&self) -> (r: Self)
        ensures
            r == *self,
    {
        match self {
            DeviceChannelRequest::Call { method, params } => DeviceChannelRequest::Call {
                method: method.clone(),
                params: copy_text(params),
            },
            DeviceChannelRequest::Subscribe { method } => DeviceChannelRequest::Subscribe {
                method: method.clone(),
            },
            DeviceChannelRequest::Unsubscribe { method } => DeviceChannelRequest::Unsubscribe {
                method: method.clone(),
            },
        }
    }
}

impl ThunderAsyncRequest {
    /// A field-by-field copy.
    pub fn duplicate(&self) -> (r: Self)
        ensures
            r == *self,
    {
        ThunderAsyncRequest { id: self.id, request: self.request.duplicate() }
    }
}

} // verus!
