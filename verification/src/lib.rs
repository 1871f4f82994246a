use vstd::prelude::*;

pub mod mqtt_packet;
pub mod text;
pub mod world;
pub mod commands;
pub mod multiplayer;
pub mod routing;
pub mod localization;
pub mod mcp;
pub mod mcp_direct;
pub mod devices;
pub mod client_id;
pub mod platform;
pub mod publishing;
pub mod scene;
pub mod outgoing;
pub mod web_session;

verus! {

} // verus!
