//! A solar-inverter monitoring bridge: translates power-flow snapshots from a
//! monitoring API into directional flow readings and MQTT payloads for
//! Home Assistant auto-discovery and state publishing.
//!
//! All business logic lives here, verified: flow derivation, topic
//! templating, discovery identifier construction, JSON payload framing,
//! fetch-response classification, and the tick scheduler's decisions.
//! Network transport (HTTP fetch, MQTT session) is driven by the binary
//! around this library, which exchanges plain values with it.

pub mod homeassistant;
pub mod json;
pub mod numfmt;
pub mod scheduler;
pub mod solaredge;
pub mod state;
pub mod text;

use vstd::prelude::*;

verus! {

} // verus!
