//! The IO boards on the vehicle bus: where everything is connected, how readings come in and how
//! outputs go out.

pub mod mapping;
pub mod pdo_mapping;
pub mod sdo;
pub mod wiring;
pub mod handler;
