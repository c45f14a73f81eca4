// A JSON-RPC endpoint broker: it matches gateway requests against rules,
// registers them under broker-assigned call ids, shapes the frames that the
// backends receive, gates requests on the activation state of backend
// plugins, keeps the subscriptions of each session, and joins backend
// responses and events back to the clients that asked for them.
//
// `request`, `rules`, `registry` and `broker` hold the intake side;
// `subscriptions`, `plugin`, `composite`, `frames` and `thunder` the
// plugin-aware WebSocket driver; `http` the HTTP driver; `forwarder` the
// response side; `json` and `text` the JSON and text primitives they share.

use vstd::prelude::*;

pub mod advertising;
pub mod async_client;
pub mod broker;
pub mod composite;
pub mod forwarder;
pub mod frames;
pub mod http;
pub mod json;
pub mod plugin;
pub mod provider;
pub mod registry;
pub mod request;
pub mod rules;
pub mod stack;
pub mod subscriptions;
pub mod text;
pub mod thunder;
pub mod usergrant;

verus! {

} // verus!
