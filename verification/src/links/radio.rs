//! What is reported of the radio links.

use vstd::prelude::*;

use crate::single::{Single, HUNDRED_BITS};

verus! {

/// How well the uplink is received, as the ground is told.
#[derive(Copy, Clone, Debug, PartialEq, Eq, Structural)]
pub struct RadioStatus {
    pub remrssi: u8,
    pub remnoise: u8,
    /// The share of lost packets, in percent.
    pub fixed: u16,
}

/// The byte with the same bits.
pub open spec fn as_byte(value: int) -> u8 {
    (value % 256) as u8
}

fn to_byte(value: i16) -> (byte: u8)
    requires
        -128 <= value <= 127,
    ensures
        byte == as_byte(value as int),
{
    if value < 0 {
        (value + 256) as u8
    } else {
        value as u8
    }
}

/// The noise below a signal of this strength: the strength less the ratio, no lower and no higher
/// than it can be told.
pub open spec fn noise(rssi: i8, snr: i8) -> int {
    if rssi - snr < -128 {
        -128
    } else if rssi - snr > 127 {
        127
    } else {
        rssi - snr
    }
}

/// How well the uplink is received, where it is known.
pub fn radio_status(stats: Option<(i8, i8, Single)>) -> (status: RadioStatus)
    ensures
        status == (match stats {
            Some((rssi, snr, packet_loss)) => RadioStatus {
                remrssi: as_byte(rssi as int),
                remnoise: as_byte(noise(rssi, snr)),
                fixed: packet_loss.cast_scaled(Single { bits: HUNDRED_BITS }, 0, 65535) as u16,
            },
            None => RadioStatus { remrssi: 0, remnoise: 0, fixed: 0 },
        }),
{
    match stats {
        None => RadioStatus { remrssi: 0, remnoise: 0, fixed: 0 },
        Some((rssi, snr, packet_loss)) => {
            let difference: i16 = rssi as i16 - snr as i16;
            let noise: i16 = if difference < -128 {
                -128
            } else if difference > 127 {
                127
            } else {
                difference
            };
            RadioStatus {
                remrssi: to_byte(rssi as i16),
                remnoise: to_byte(noise),
                fixed: packet_loss.scaled(Single { bits: HUNDRED_BITS }, 0, 65535) as u16,
            }
        },
    }
}

} // verus!
