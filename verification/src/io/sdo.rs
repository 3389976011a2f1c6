//! Messages that write to the store of an IO board.

use embedded_can::{ExtendedId, StandardId};
use vstd::prelude::*;
use zencan_common::sdo::SdoRequest;
use zencan_common::CanId;

use crate::bounded::{payload_bytes, payload_from_slice, payload_slice};
use crate::bus::{IoAddr, ValveState};
use crate::inventory::ValveId;
use crate::io::mapping::{valve_id_map, valve_place, VALVE_STORE_IDX};

verus! {

/// The first identifier of the messages that write to a store; that of a node is the node's
/// number further on.
pub const SDO_REQUEST_COB_ID: u16 = 0x600;

/// A message on the bus.
#[derive(Copy, Clone, PartialEq, Eq, Debug)]
pub struct CanMessage {
    pub id: u32,
    /// The identifier has 29 bits instead of 11.
    pub extended: bool,
    pub rtr: bool,
    pub dlc: u8,
    pub data: [u8; 8],
}

/// The first byte of a message that initiates a download: the command, the number `n` and two
/// flags.
pub open spec fn download_command(n: u8, e: bool, s: bool) -> int {
    32 + 4 * n + if e {
        2int
    } else {
        0
    } + if s {
        1int
    } else {
        0
    }
}

/// `zencan_common::sdo::SdoRequest::to_can_message` of a request that initiates a download: a
/// message of eight bytes with a standard identifier, which are the command byte, the index with
/// its lower byte first, the sub-index and the data.
#[verifier::external_body]
fn initiate_download(
    n: u8,
    e: bool,
    s: bool,
    index: u16,
    sub: u8,
    data: [u8; 4],
    cob_id: u16,
) -> (msg: CanMessage)
    requires
        n <= 7,
    ensures
        msg.id == cob_id,
        !msg.extended,
        !msg.rtr,
        msg.dlc == 8,
        msg.data@ == seq![
            download_command(n, e, s) as u8,
            (index % 256) as u8,
            (index / 256) as u8,
            sub,
            data[0],
            data[1],
            data[2],
            data[3],
        ],
{
    let request = SdoRequest::InitiateDownload { n, e, s, index, sub, data };
    let msg = request.to_can_message(CanId::std(cob_id));
    CanMessage {
        id: msg.id().raw(),
        extended: msg.id().is_extended(),
        rtr: msg.rtr,
        dlc: msg.dlc,
        data: msg.data,
    }
}

/// The message that writes the bytes to the address: an expedited download with its size given.
pub open spec fn is_write(msg: CanMessage, bytes: Seq<u8>, addr: IoAddr) -> bool {
    let byte = |i: int|
        if i < bytes.len() {
            bytes[i]
        } else {
            0u8
        };
    &&& msg.id == SDO_REQUEST_COB_ID + addr.node_id
    &&& !msg.extended
    &&& !msg.rtr
    &&& msg.dlc == 8
    &&& msg.data@ == seq![
        download_command(bytes.len() as u8, true, true) as u8,
        (addr.index % 256) as u8,
        (addr.index / 256) as u8,
        addr.subindex,
        byte(0),
        byte(1),
        byte(2),
        byte(3),
    ]
}

fn byte_or_zero(bytes: &[u8], i: usize) -> (byte: u8)
    ensures
        byte == (if i < bytes.len() {
            bytes[i as int]
        } else {
            0u8
        }),
{
    if i < bytes.len() {
        bytes[i]
    } else {
        0
    }
}

/// Generate a message for writing data to an IO board.
pub fn sdo_write_msg(data: &heapless::Vec<u8, 4>, addr: &IoAddr) -> (msg: CanMessage)
    ensures
        is_write(msg, payload_bytes(*data), *addr),
{
    let bytes = payload_slice(data);
    let n: u8 = bytes.len() as u8;  // data size
    let e = true;  // expedited transfer, single packet transfer only
    let s = true;  // data size specified in n
    initiate_download(
        n,
        e,
        s,
        addr.index,
        addr.subindex,
        [
            byte_or_zero(bytes, 0),
            byte_or_zero(bytes, 1),
            byte_or_zero(bytes, 2),
            byte_or_zero(bytes, 3),
        ],
        SDO_REQUEST_COB_ID + addr.node_id as u16,
    )
}

/// The message that writes the bytes, of which there are at most four.
fn write_bytes(bytes: &[u8], addr: &IoAddr) -> (msg: CanMessage)
    requires
        bytes.len() <= 4,
    ensures
        is_write(msg, bytes@, *addr),
{
    let data = payload_from_slice(bytes).unwrap();
    sdo_write_msg(&data, addr)
}

/// The number as two bytes, the lower one first.
pub open spec fn le_bytes(value: u16) -> Seq<u8> {
    seq![(value % 256) as u8, (value / 256) as u8]
}

fn write_word(value: u16, addr: &IoAddr) -> (msg: CanMessage)
    ensures
        is_write(msg, le_bytes(value), *addr),
{
    let bytes: [u8; 2] = [(value % 256) as u8, (value / 256) as u8];
    assert(bytes@ =~= le_bytes(value));
    write_bytes(bytes.as_slice(), addr)
}

/// The message that sets the pulse width of a servo.
pub fn set_servo_pwm_msg(micros: u16, servo: &IoAddr) -> (msg: CanMessage)
    ensures
        is_write(msg, le_bytes(micros), *servo),
{
    write_word(micros, servo)
}

/// The message that switches an output on or off.
pub fn set_boolean_msg(state: bool, device: &IoAddr) -> (msg: CanMessage)
    ensures
        is_write(
            msg,
            seq![
                if state {
                    1u8
                } else {
                    0u8
                },
            ],
            *device,
        ),
{
    let byte: u8 = if state {
        1
    } else {
        0
    };
    let bytes: [u8; 1] = [byte];
    assert(bytes@ =~= seq![if state { 1u8 } else { 0u8 }]);
    write_bytes(bytes.as_slice(), device)
}

/// The message that moves a valve.
pub fn set_valve_msg(state: ValveState, device: &IoAddr) -> (msg: CanMessage)
    ensures
        is_write(msg, le_bytes(state@), *device),
{
    write_word(state.promille(), device)
}

/// The message that moves this valve.
pub fn valve_sdo_frame(valve: ValveId, state: ValveState) -> (msg: CanMessage)
    ensures
        is_write(
            msg,
            le_bytes(state@),
            (IoAddr {
                node_id: valve_place(valve).0,
                index: VALVE_STORE_IDX,
                subindex: valve_place(valve).1,
            }),
        ),
{
    let map = valve_id_map();
    set_valve_msg(state, map.get(valve))
}

/// The identifier of a message on the wire.
#[derive(Copy, Clone, PartialEq, Eq, Debug, Structural)]
pub enum WireId {
    /// An identifier of 11 bits.
    Standard(u16),
    /// An identifier of 29 bits.
    Extended(u32),
}

/// `embedded_can::StandardId::new`: the identifier with this number, if it has no more than 11
/// bits.
#[verifier::external_body]
pub(crate) fn standard_id(raw: u16) -> (id: Option<u16>)
    ensures
        id == (if raw <= 0x7ff {
            Some(raw)
        } else {
            None
        }),
{
    StandardId::new(raw).map(|id| id.as_raw())
}

/// `embedded_can::ExtendedId::new`: the identifier with this number, if it has no more than 29
/// bits.
#[verifier::external_body]
fn extended_id(raw: u32) -> (id: Option<u32>)
    ensures
        id == (if raw <= 0x1fff_ffff {
            Some(raw)
        } else {
            None
        }),
{
    ExtendedId::new(raw).map(|id| id.as_raw())
}

/// The identifier of a message on the wire, if its number fits.
pub fn can_msg_id(msg: &CanMessage) -> (id: Option<WireId>)
    ensures
        id == (if msg.id > max_id(msg.extended) {
            None
        } else if msg.extended {
            Some(WireId::Extended(msg.id))
        } else {
            Some(WireId::Standard(msg.id as u16))
        }),
{
    if msg.extended {
        match extended_id(msg.id) {
            Some(id) => Some(WireId::Extended(id)),
            None => None,
        }
    } else if msg.id > u16::MAX as u32 {
        None
    } else {
        match standard_id(msg.id as u16) {
            Some(id) => Some(WireId::Standard(id)),
            None => None,
        }
    }
}

/// The largest number of an identifier.
pub open spec fn max_id(extended: bool) -> u32 {
    if extended {
        0x1fff_ffff
    } else {
        0x7ff
    }
}

/// Every message that writes to a store has an identifier that fits.
pub proof fn law_writes_have_valid_identifiers(msg: CanMessage, bytes: Seq<u8>, addr: IoAddr)
    requires
        is_write(msg, bytes, addr),
    ensures
        msg.id <= max_id(msg.extended),
{
}

} // verus!
