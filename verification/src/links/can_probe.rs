//! Forwards frames between the CAN bus and the ground.
//!
//! When requested, all frames on the bus are forwarded to the ground, and frames that come from
//! there are put on the bus. There is one bus, without CAN-FD.

use vstd::prelude::*;

use crate::io::sdo::{standard_id, WireId};
use crate::links::uplink::UplinkCommand;

verus! {

/// A CAN frame in a message from or to the ground.
#[derive(Copy, Clone, Debug, PartialEq, Eq)]
pub struct CanFrame {
    pub target_system: u8,
    pub target_component: u8,
    pub bus: u8,
    pub id: u32,
    pub len: u8,
    pub data: [u8; 8],
}

/// Why a frame from the ground is not put on the bus.
#[derive(Copy, Clone, Debug, PartialEq, Eq, Structural)]
pub enum Refusal {
    /// Its identifier has more than 11 bits.
    NonStandard,
    /// It is longer than eight bytes.
    TooLong,
}

/// The frame on the bus for a frame from the ground: its identifier and its bytes.
pub fn to_bus(frame: &CanFrame) -> (result: Result<(u16, [u8; 8]), Refusal>)
    ensures
        match result {
            Ok((id, data)) => frame.id <= 0x7ff && frame.len <= 8 && id == frame.id && data@
                == frame.data@,
            Err(Refusal::NonStandard) => frame.id > 0x7ff,
            Err(Refusal::TooLong) => frame.id <= 0x7ff && frame.len > 8,
        },
{
    if frame.id > u16::MAX as u32 {
        return Err(Refusal::NonStandard);
    }
    match standard_id(frame.id as u16) {
        None => Err(Refusal::NonStandard),
        Some(id) => if frame.len > 8 {
            Err(Refusal::TooLong)
        } else {
            Ok((id, frame.data))
        },
    }
}

/// Whether frames on the bus are forwarded.
#[derive(Copy, Clone, Debug, PartialEq, Eq, Structural)]
pub struct CanProbe {
    forwarding: bool,
}

/// The bytes, filled up with zeros.
pub open spec fn filled_up(bytes: Seq<u8>) -> Seq<u8> {
    Seq::new(
        8,
        |k: int|
            if k < bytes.len() {
                bytes[k]
            } else {
                0
            },
    )
}

impl CanProbe {
    /// Frames on the bus are forwarded.
    pub closed spec fn is_forwarding(self) -> bool {
        self.forwarding
    }

    /// Nothing is forwarded until it is requested.
    pub fn new() -> (probe: Self)
        ensures
            !probe.is_forwarding(),
    {
        CanProbe { forwarding: false }
    }

    /// Takes a command from the ground.
    pub fn command(&mut self, command: &UplinkCommand)
        ensures
            final(self).is_forwarding() == (old(self).is_forwarding() || *command
                is RequestCanForwarding),
    {
        match command {
            UplinkCommand::RequestCanForwarding => {
                self.forwarding = true;
            },
            _ => {},
        }
    }

    /// The message to the ground for a frame on the bus, where frames are forwarded.
    pub fn to_ground(&self, id: WireId, bytes: &[u8]) -> (frame: Option<CanFrame>)
        requires
            bytes@.len() <= 8,
        ensures
            match frame {
                Some(frame) => {
                    &&& self.is_forwarding()
                    &&& frame.target_system == 0xff
                    &&& frame.target_component == 0xff
                    &&& frame.bus == 1
                    &&& frame.id == (match id {
                        WireId::Standard(id) => id as u32,
                        WireId::Extended(id) => id,
                    })
                    &&& frame.len == bytes@.len()
                    &&& frame.data@ == filled_up(bytes@)
                },
                None => !self.is_forwarding(),
            },
    {
        if !self.forwarding {
            return None;
        }
        let id: u32 = match id {
            WireId::Standard(id) => id as u32,
            WireId::Extended(id) => id,
        };
        let mut data: [u8; 8] = [0, 0, 0, 0, 0, 0, 0, 0];
        let mut k: usize = 0;
        while k < bytes.len()
            invariant
                k <= bytes.len() <= 8,
                data@ == filled_up(bytes@.take(k as int)),
            decreases bytes.len() - k,
        {
            data[k] = bytes[k];
            k += 1;
            assert(data@ =~= filled_up(bytes@.take(k as int)));
        }
        assert(bytes@.take(k as int) =~= bytes@);
        Some(
            CanFrame {
                target_system: 0xff,
                target_component: 0xff,
                bus: 1,
                id,
                len: bytes.len() as u8,
                data,
            },
        )
    }
}

} // verus!
