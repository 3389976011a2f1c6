//! How frames are put together from what a link brings in, and cut up for what it takes.

use vstd::prelude::*;

use crate::bounded::{
    clear_frame, extend_frame, frame_bytes, frame_slice, new_frame, FRAME_BUFFER_SIZE,
};
use crate::links::frame::{frame_in, may_be_frame, read_frame, RawFrame, START_BYTE};
use crate::mavlink::TelemetryMessage;

verus! {

/// What came of parsing the bytes that are buffered.
#[derive(Copy, Clone, Debug, PartialEq, Eq, Structural)]
pub enum Parsed {
    Complete,
    /// The frame goes on in what comes next.
    TooShort,
    Malformed,
}

/// The bytes of a frame that is still coming in.
pub struct FrameBuffer {
    buffer: heapless::Vec<u8, 1024>,
}

impl View for FrameBuffer {
    type V = Seq<u8>;

    /// The bytes that came in so far.
    closed spec fn view(&self) -> Seq<u8> {
        frame_bytes(self.buffer)
    }
}

impl FrameBuffer {
    pub fn new() -> (frame: Self)
        ensures
            frame@ == Seq::<u8>::empty(),
    {
        FrameBuffer { buffer: new_frame() }
    }

    /// Takes a packet. Where it does not fit, everything is dropped, and there is nothing to parse.
    pub fn receive(&mut self, packet: &[u8]) -> (fits: bool)
        ensures
            fits == (old(self)@.len() + packet@.len() <= FRAME_BUFFER_SIZE),
            final(self)@ == if fits {
                old(self)@ + packet@
            } else {
                Seq::empty()
            },
    {
        if extend_frame(&mut self.buffer, packet) {
            true
        } else {
            clear_frame(&mut self.buffer);
            false
        }
    }

    /// Takes a packet, and gives the frame that it completes.
    pub fn packet(&mut self, packet: &[u8]) -> (frame: Option<RawFrame>)
        ensures
            ({
                let bytes = old(self)@ + packet@;
                match frame {
                    Some(frame) => {
                        &&& may_be_frame(bytes)
                        &&& frame_in(bytes) == Some(frame@)
                        &&& frame.bytes@ == bytes
                        &&& final(self)@ == Seq::<u8>::empty()
                    },
                    None => {
                        &&& may_be_frame(bytes) ==> frame_in(bytes) is None
                        &&& final(self)@ == kept(bytes)
                    },
                }
            }),
    {
        if !self.receive(packet) {
            return None;
        }
        let bytes = self.bytes();
        let starts_well = bytes.len() == 0 || bytes[0] == START_BYTE;
        let frame = if starts_well {
            read_frame(bytes)
        } else {
            None
        };
        let result = match &frame {
            Some(_) => Parsed::Complete,
            None => if starts_well {
                Parsed::TooShort
            } else {
                Parsed::Malformed
            },
        };
        let _ = self.parsed(result);
        frame
    }

    /// The bytes to be parsed.
    pub fn bytes(&self) -> (bytes: &[u8])
        ensures
            bytes@ == self@,
    {
        frame_slice(&self.buffer)
    }

    /// Takes what came of parsing the bytes, and tells whether a frame is to be passed on. The
    /// bytes are kept only where the frame goes on in what comes next.
    pub fn parsed(&mut self, result: Parsed) -> (publish: bool)
        ensures
            publish == (result is Complete),
            final(self)@ == if result is TooShort {
                old(self)@
            } else {
                Seq::empty()
            },
    {
        match result {
            Parsed::Complete => {
                clear_frame(&mut self.buffer);
                true
            },
            Parsed::TooShort => false,
            Parsed::Malformed => {
                clear_frame(&mut self.buffer);
                false
            },
        }
    }
}

/// What is kept of bytes in which there is no whole frame.
pub open spec fn kept(bytes: Seq<u8>) -> Seq<u8> {
    if may_be_frame(bytes) {
        bytes
    } else {
        Seq::empty()
    }
}

/// The bytes in the buffer after packets that each left the frame incomplete.
pub open spec fn gathered(packets: Seq<Seq<u8>>) -> Seq<u8>
    decreases packets.len(),
{
    if packets.len() == 0 {
        Seq::empty()
    } else {
        kept(gathered(packets.drop_last()) + packets.last())
    }
}

/// A frame that comes in several packets is put together again, as long as it fits.
pub proof fn law_split_frames_are_put_together(packets: Seq<Seq<u8>>)
    requires
        may_be_frame(packets.flatten()),
    ensures
        gathered(packets) == packets.flatten(),
    decreases packets.len(),
{
    if packets.len() == 0 {
        assert(packets.flatten() =~= Seq::empty());
    } else {
        let rest = packets.drop_last();
        assert(packets =~= rest.push(packets.last()));
        rest.lemma_flatten_push(packets.last());
        assert(packets.flatten() == rest.flatten() + packets.last());
        if rest.flatten().len() > 0 {
            assert(packets.flatten()[0] == rest.flatten()[0]);
        }
        law_split_frames_are_put_together(rest);
    }
}

/// Bytes that cannot be the start of a frame are dropped at once, so that the next packet is looked
/// at afresh.
pub proof fn law_malformed_bytes_are_dropped(packets: Seq<Seq<u8>>, next: Seq<u8>)
    requires
        packets.len() > 0,
        !may_be_frame(gathered(packets.drop_last()) + packets.last()),
    ensures
        gathered(packets) == Seq::<u8>::empty(),
        gathered(packets.push(next)) == kept(next),
{
    assert(packets.push(next).drop_last() =~= packets);
    assert(gathered(packets) + next =~= next);
}

/// The size of a USB packet.
pub const USB_PACKET_SIZE: usize = 64;

/// The packets, one after the other, and where the last of them ended.
pub open spec fn is_usb_split(packets: Seq<(usize, usize)>, done: int) -> bool
    decreases packets.len(),
{
    if packets.len() == 0 {
        done == 0
    } else {
        let (start, end) = packets.last();
        &&& start <= end
        &&& end == done
        &&& end - start <= USB_PACKET_SIZE
        &&& packets.len() > 1 ==> start as int % 64 == 0
        &&& is_usb_split(packets.drop_last(), start as int)
    }
}

/// Where the packets of a message of this length start and end. A transfer ends with a packet that
/// is not full, so that a message that fills its last packet is followed by an empty one.
pub fn usb_packets(len: usize) -> (packets: Vec<(usize, usize)>)
    requires
        len <= FRAME_BUFFER_SIZE,
    ensures
        is_usb_split(packets@, len as int),
        packets.len() == len / USB_PACKET_SIZE + 1,
        ({
            let (start, end) = packets@.last();
            end - start == len as int % 64
        }),
{
    let mut packets: Vec<(usize, usize)> = Vec::new();
    let mut at: usize = 0;
    while len - at >= USB_PACKET_SIZE
        invariant
            at <= len <= FRAME_BUFFER_SIZE,
            at == 64 * packets.len(),
            is_usb_split(packets@, at as int),
        decreases len - at,
    {
        let ghost before = packets@;
        packets.push((at, at + USB_PACKET_SIZE));
        assert(packets@.drop_last() =~= before);
        at = at + USB_PACKET_SIZE;
    }
    let ghost before = packets@;
    packets.push((at, len));
    assert(packets@.drop_last() =~= before);
    packets
}

/// A message on its way out.
#[derive(Copy, Clone, Debug, PartialEq, Eq, Structural)]
pub enum Outgoing {
    Telemetry(TelemetryMessage),
    CommandAck,
    AvailableModes,
    CanFrame,
    LinkNodeStatus,
    ParamValue,
}

/// Whether a message goes out over USB.
pub fn goes_out_over_usb(message: Outgoing) -> (goes: bool)
    ensures
        goes == (match message {
            Outgoing::Telemetry(m) => m is Heartbeat || m is Attitude || m is LocalPositionNed || m
                is ScaledImu || m is ScaledImu2 || m is ScaledImu3 || m is ScaledPressure || m
                is ScaledPressure2 || m is ScaledPressure3 || m is BatteryStatus,
            Outgoing::CommandAck | Outgoing::AvailableModes | Outgoing::CanFrame => true,
            Outgoing::LinkNodeStatus | Outgoing::ParamValue => false,
        }),
{
    match message {
        Outgoing::Telemetry(m) => match m {
            TelemetryMessage::Heartbeat
            | TelemetryMessage::Attitude
            | TelemetryMessage::LocalPositionNed
            | TelemetryMessage::ScaledImu
            | TelemetryMessage::ScaledImu2
            | TelemetryMessage::ScaledImu3
            | TelemetryMessage::ScaledPressure
            | TelemetryMessage::ScaledPressure2
            | TelemetryMessage::ScaledPressure3
            | TelemetryMessage::BatteryStatus => true,
            _ => false,
        },
        Outgoing::CommandAck | Outgoing::AvailableModes | Outgoing::CanFrame => true,
        Outgoing::LinkNodeStatus | Outgoing::ParamValue => false,
    }
}

} // verus!
