//! How often telemetry is sent, and what it is sent through.

use vstd::prelude::*;

use crate::links::uplink::UplinkCommand;

verus! {

pub const HEARTBEAT_INTERVAL_MS: u32 = 500;

pub const SENSOR_INTERVAL_MS: u32 = 100;

pub const BATTERY_INTERVAL_MS: u32 = 200;

/// A link to the ground.
pub trait TelemetryLink {
    type Message;

    fn send_message(&mut self, message: Self::Message);

    fn try_recv_command(&mut self) -> Option<UplinkCommand>;
}

} // verus!
