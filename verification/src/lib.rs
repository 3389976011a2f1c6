//! The flight software of a hybrid-propellant sounding rocket, as a verified library.

pub mod bounded;
pub mod bus;
pub mod buzzer;
pub mod cpu;
pub mod flash;
pub mod flight_logic;
pub mod foreign;
pub mod foreign_io;
pub mod gcs;
pub mod gse;
pub mod inventory;
pub mod io;
pub mod leds;
pub mod links;
pub mod mavlink;
pub mod modes;
pub mod param_group;
pub mod params;
pub mod power;
pub mod propulsion;
pub mod schedule;
pub mod single;
pub mod storage;
pub mod tank_level;
pub mod telemetry;
pub mod text;
pub mod traits;
pub mod valves;
pub mod vehicle;
