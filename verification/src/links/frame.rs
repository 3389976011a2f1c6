//! Frames on the wire: how they are read and what they are made of.

use mavio::error::IoError;
use mavio::io::{EmbeddedIoReader, EmbeddedIoWriter, Receiver, Sender};
use mavio::protocol::V2;
use mavio::Frame;
use vstd::prelude::*;

use crate::bounded::FRAME_BUFFER_SIZE;
use crate::links::commands::FrameHeader;
use crate::links::link_quality::in_order;
use crate::links::uplink::Downlink;

verus! {

/// The byte that every frame starts with.
pub const START_BYTE: u8 = 0xfd;

/// A frame: its header, the payload of its message and its checksum.
#[derive(Debug, PartialEq, Eq)]
pub struct RawFrame {
    pub sequence: u8,
    pub system_id: u8,
    pub component_id: u8,
    /// How many bytes follow the header.
    pub body_length: u16,
    pub message_id: u32,
    pub payload: Vec<u8>,
    pub checksum: u16,
    /// The bytes that the frame was read from.
    pub bytes: Vec<u8>,
}

/// What a frame holds.
pub struct FrameData {
    pub sequence: u8,
    pub system_id: u8,
    pub component_id: u8,
    pub body_length: u16,
    pub message_id: u32,
    pub payload: Seq<u8>,
    pub checksum: u16,
}

impl View for RawFrame {
    type V = FrameData;

    /// What the frame holds, whatever bytes it was read from.
    open spec fn view(&self) -> FrameData {
        FrameData {
            sequence: self.sequence,
            system_id: self.system_id,
            component_id: self.component_id,
            body_length: self.body_length,
            message_id: self.message_id,
            payload: self.payload@,
            checksum: self.checksum,
        }
    }
}

/// The bytes may be a frame, or the start of one: they fit, and they start as a frame does.
pub open spec fn may_be_frame(bytes: Seq<u8>) -> bool {
    &&& bytes.len() <= FRAME_BUFFER_SIZE
    &&& bytes.len() > 0 ==> bytes[0] == START_BYTE
}

/// The first frame of the second version of MAVLink in the bytes, where there is a whole one.
pub uninterp spec fn frame_in(bytes: Seq<u8>) -> Option<FrameData>;

/// `mavio::io::Receiver::recv` on the bytes: the first frame of the second version of MAVLink in
/// them, or nothing where they end before it does. What is in the frame is not stated, only that it
/// follows from the bytes. The checksum is not looked at.
#[verifier::external_body]
pub(crate) fn read_frame(bytes: &[u8]) -> (frame: Option<RawFrame>)
    ensures
        match frame {
            Some(frame) => frame_in(bytes@) == Some(frame@) && frame.bytes@ == bytes@,
            None => frame_in(bytes@) is None,
        },
{
    let reader = EmbeddedIoReader::new(bytes);
    let frame = Receiver::<IoError, _, _>::versioned(reader, V2).recv().ok()?;
    Some(RawFrame {
        sequence: frame.sequence(),
        system_id: frame.system_id(),
        component_id: frame.component_id(),
        body_length: frame.body_length() as u16,
        message_id: frame.message_id(),
        payload: frame.payload().bytes().to_vec(),
        checksum: frame.checksum(),
        bytes: bytes.to_vec(),
    })
}

/// The checksum that the first frame in the bytes should have, with this byte for the definition of
/// its message.
pub uninterp spec fn checksum_in(bytes: Seq<u8>, crc_extra: u8) -> Option<u16>;

/// `mavio::Frame::calculate_crc` of the first frame in the bytes. The algorithm is not stated, only
/// that the checksum follows from the bytes and the extra one.
#[verifier::external_body]
fn calculate_crc(bytes: &[u8], crc_extra: u8) -> (checksum: Option<u16>)
    ensures
        checksum == checksum_in(bytes@, crc_extra),
{
    let reader = EmbeddedIoReader::new(bytes);
    let frame = Receiver::<IoError, _, _>::versioned(reader, V2).recv().ok()?;
    Some(frame.calculate_crc(crc_extra))
}

impl RawFrame {
    /// The header, as far as commands go by it.
    pub fn header(&self) -> (header: FrameHeader)
        ensures
            header == (FrameHeader {
                system_id: self.system_id,
                component_id: self.component_id,
                sequence: self.sequence,
                body_length: self.body_length,
            }),
    {
        FrameHeader {
            system_id: self.system_id,
            component_id: self.component_id,
            sequence: self.sequence,
            body_length: self.body_length,
        }
    }

    /// Whether the checksum is the one that the frame should have. Only such a frame is decoded.
    pub fn is_intact(&self, crc_extra: u8) -> (intact: bool)
        ensures
            intact == (checksum_in(self.bytes@, crc_extra) == Some(self.checksum)),
    {
        match calculate_crc(self.bytes.as_slice(), crc_extra) {
            Some(checksum) => checksum == self.checksum,
            None => false,
        }
    }
}

/// A message as it goes into a frame.
#[derive(Debug, PartialEq, Eq)]
pub struct EncodedMessage {
    pub message_id: u32,
    pub payload: Vec<u8>,
    /// The byte for the definition of the message, which goes into the checksum.
    pub crc_extra: u8,
}

impl EncodedMessage {
    /// The message fits a frame: its id has three bytes, and its payload a length of one.
    pub open spec fn wf(self) -> bool {
        &&& self.message_id < 0x100_0000
        &&& 1 <= self.payload.len() <= 255
    }
}

/// The payload without the zeros at its end, but for its first byte.
pub open spec fn truncated(payload: Seq<u8>) -> Seq<u8>
    decreases payload.len(),
{
    if payload.len() > 1 && payload.last() == 0 {
        truncated(payload.drop_last())
    } else {
        payload
    }
}

proof fn lemma_truncated_len(payload: Seq<u8>)
    ensures
        truncated(payload).len() <= payload.len(),
    decreases payload.len(),
{
    if payload.len() > 1 && payload.last() == 0 {
        lemma_truncated_len(payload.drop_last());
    }
}

/// The bytes of the frame with this header and this message.
pub uninterp spec fn bytes_of(
    sequence: u8,
    system_id: u8,
    component_id: u8,
    message_id: u32,
    payload: Seq<u8>,
    crc_extra: u8,
) -> Seq<u8>;

/// `mavio::protocol::FrameBuilder::build` and `mavio::io::Sender::send`: the bytes of the frame
/// with this header and this message. They are a header of ten bytes, the first of which is the
/// start byte, the payload without the zeros at its end, and two bytes of checksum. Read again,
/// they give a frame with the same header and payload, and with the checksum that it should have.
/// What the bytes are is not stated otherwise, only that they follow from the header and the
/// message.
#[verifier::external_body]
fn write_frame(sequence: u8, system_id: u8, component_id: u8, message: &EncodedMessage) -> (bytes:
    Vec<u8>)
    requires
        message.wf(),
    ensures
        bytes@ == bytes_of(
            sequence,
            system_id,
            component_id,
            message.message_id,
            message.payload@,
            message.crc_extra,
        ),
        bytes@.len() == truncated(message.payload@).len() + 12,
        bytes@[0] == START_BYTE,
        match frame_in(bytes@) {
            Some(data) => {
                &&& data.sequence == sequence
                &&& data.system_id == system_id
                &&& data.component_id == component_id
                &&& data.message_id == message.message_id
                &&& data.payload == truncated(message.payload@)
                &&& data.body_length == truncated(message.payload@).len() + 2
                &&& checksum_in(bytes@, message.crc_extra) == Some(data.checksum)
            },
            None => false,
        },
{
    let builder = Frame::builder().version(V2).sequence(sequence).system_id(system_id);
    let builder = builder.component_id(component_id).message_id(message.message_id);
    let frame = builder.payload(&message.payload).crc_extra(message.crc_extra).build();
    let mut bytes: Vec<u8> = vec![0; 280];
    let writer = EmbeddedIoWriter::new(&mut bytes[..]);
    let sent = Sender::<IoError, _, _>::versioned(writer, V2).send(&frame);
    bytes.truncate(sent.unwrap_or(0));
    bytes
}

/// The sending end of a link: its system id, and the sequence number of the next frame.
#[derive(Copy, Clone, Debug, PartialEq, Eq, Structural)]
pub struct Endpoint {
    pub system_id: u8,
    pub sequence: u8,
}

impl Endpoint {
    /// The endpoint once a frame has been sent.
    pub open spec fn advanced(self) -> Endpoint {
        Endpoint { sequence: ((self.sequence + 1) % 256) as u8, ..self }
    }

    /// The first frame has sequence number zero.
    pub fn new(system_id: u8) -> (endpoint: Self)
        ensures
            endpoint == (Endpoint { system_id, sequence: 0 }),
    {
        Endpoint { system_id, sequence: 0 }
    }

    /// The sequence number of the next frame, which is then used up. The numbers wrap around.
    pub fn next_sequence(&mut self) -> (sequence: u8)
        ensures
            sequence == old(self).sequence,
            *final(self) == old(self).advanced(),
    {
        let sequence: u8 = self.sequence;
        self.sequence = sequence.wrapping_add(1);
        sequence
    }
}

impl Downlink<EncodedMessage> {
    /// The bytes of the outgoing frame, with this message's component rather than one of the
    /// endpoint. The sequence stays one run per link, so that packet loss that is reconstructed
    /// from sequence gaps stays meaningful.
    pub fn frame(&self, endpoint: &mut Endpoint) -> (bytes: Vec<u8>)
        requires
            self.message.wf(),
        ensures
            *final(endpoint) == old(endpoint).advanced(),
            bytes@ == bytes_of(
                old(endpoint).sequence,
                old(endpoint).system_id,
                self.component_id,
                self.message.message_id,
                self.message.payload@,
                self.message.crc_extra,
            ),
            may_be_frame(bytes@),
            frame_in(bytes@) is Some,
            ({
                let data = frame_in(bytes@)->0;
                &&& data.sequence == old(endpoint).sequence
                &&& data.system_id == old(endpoint).system_id
                &&& data.component_id == self.component_id
                &&& data.message_id == self.message.message_id
                &&& data.payload == truncated(self.message.payload@)
                &&& checksum_in(bytes@, self.message.crc_extra) == Some(data.checksum)
            }),
    {
        let sequence: u8 = endpoint.next_sequence();
        proof {
            lemma_truncated_len(self.message.payload@);
        }
        write_frame(sequence, endpoint.system_id, self.component_id, &self.message)
    }
}

/// The endpoint after this many frames.
pub open spec fn after_frames(endpoint: Endpoint, frames: nat) -> Endpoint
    decreases frames,
{
    if frames == 0 {
        endpoint
    } else {
        after_frames(endpoint, (frames - 1) as nat).advanced()
    }
}

/// The frames of a link are one run of sequence numbers, whichever components they speak for: each
/// number follows that of the frame before it, so that nothing counts as lost of frames that all
/// arrive in order.
pub proof fn law_one_run_of_sequence_numbers_per_link(endpoint: Endpoint, frames: nat)
    ensures
        in_order(
            Seq::new(frames, |k: int| after_frames(endpoint, k as nat).sequence),
            endpoint.sequence,
        ),
        after_frames(endpoint, frames).system_id == endpoint.system_id,
        after_frames(endpoint, frames).sequence == (endpoint.sequence + frames) % 256,
    decreases frames,
{
    if frames > 0 {
        let fewer = (frames - 1) as nat;
        law_one_run_of_sequence_numbers_per_link(endpoint, fewer);
        let all = Seq::new(frames, |k: int| after_frames(endpoint, k as nat).sequence);
        let most = Seq::new(fewer, |k: int| after_frames(endpoint, k as nat).sequence);
        assert forall|i: int| 0 <= i < all.len() implies #[trigger] all[i] == (endpoint.sequence + i)
            % 256 by {
            if i < fewer {
                assert(all[i] == most[i]);
            }
        }
    }
}

} // verus!
