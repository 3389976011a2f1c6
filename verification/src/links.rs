//! The links to the ground: what is understood of what they bring in, and how well they work.

pub mod can_probe;
pub mod commands;
pub mod frame;
pub mod inbox;
pub mod link_quality;
pub mod modes;
pub mod orders;
pub mod params;
pub mod radio;
pub mod reordering;
pub mod stream;
pub mod traffic;
pub mod uplink;
