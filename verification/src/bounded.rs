//! The bounded collections of the `heapless` crate, as far as the flight software uses them.

use heapless::Deque;
use vstd::prelude::*;

use crate::bus::ValveState;
use crate::inventory::{BinaryOutputId, ValveId};
use crate::io::pdo_mapping::SensorReading;
use crate::power::PowerReading;

verus! {

/// `heapless::Deque`: a double-ended queue that holds at most `N` items.
#[verifier::external_type_specification]
#[verifier::external_body]
#[verifier::reject_recursive_types(T)]
pub struct ExDeque<T, const N: usize>(Deque<T, N>);

/// `heapless::Vec`: a vector that holds at most `N` items.
#[verifier::external_type_specification]
#[verifier::external_body]
#[verifier::reject_recursive_types(T)]
pub struct ExBoundedVec<T, const N: usize>(heapless::Vec<T, N>);

/// One received frame: when it came in (in microseconds), its sequence number, and its length.
pub type Reception = (u64, u8, u16);

/// How many received frames are remembered.
pub const RECEPTIONS: usize = 64;

/// The frames in the queue, front first.
pub uninterp spec fn receptions(queue: Deque<Reception, 64>) -> Seq<Reception>;

/// `heapless::Deque::new`: an empty queue.
#[verifier::external_body]
pub(crate) fn new_receptions() -> (queue: Deque<Reception, 64>)
    ensures
        receptions(queue) == Seq::<Reception>::empty(),
{
    Deque::new()
}

/// `heapless::Deque::front`: the item at the front, if there is one.
#[verifier::external_body]
pub(crate) fn front_reception(queue: &Deque<Reception, 64>) -> (front: Option<Reception>)
    ensures
        front == (if receptions(*queue).len() == 0 {
            None
        } else {
            Some(receptions(*queue)[0])
        }),
{
    queue.front().copied()
}

/// `heapless::Deque::pop_front`: takes the item at the front out, if there is one.
#[verifier::external_body]
pub(crate) fn pop_reception(queue: &mut Deque<Reception, 64>) -> (front: Option<Reception>)
    ensures
        receptions(*old(queue)).len() == 0 ==> front is None && receptions(*final(queue))
            == receptions(*old(queue)),
        receptions(*old(queue)).len() > 0 ==> front == Some(receptions(*old(queue))[0])
            && receptions(*final(queue)) == receptions(*old(queue)).drop_first(),
{
    queue.pop_front()
}

/// `heapless::Deque::push_back`: puts the item at the back, or hands it back where the queue holds
/// as many items as it can.
#[verifier::external_body]
pub(crate) fn push_reception(queue: &mut Deque<Reception, 64>, item: Reception) -> (refused:
    Option<Reception>)
    ensures
        receptions(*final(queue)).len() <= RECEPTIONS,
        match refused {
            None => receptions(*final(queue)) == receptions(*old(queue)).push(item),
            Some(back) => back == item && receptions(*old(queue)).len() == RECEPTIONS && receptions(
                *final(queue),
            ) == receptions(*old(queue)),
        },
{
    queue.push_back(item).err()
}

/// `heapless::Deque::iter`: the items, front to back.
#[verifier::external_body]
pub(crate) fn list_receptions(queue: &Deque<Reception, 64>) -> (items: Vec<Reception>)
    ensures
        items@ == receptions(*queue),
        items.len() <= RECEPTIONS,
{
    queue.iter().copied().collect()
}

/// How many readings of the power monitor are averaged.
pub const POWER_READINGS: usize = 20;

/// The readings in the queue, front first.
pub uninterp spec fn power_readings(queue: Deque<PowerReading, 20>) -> Seq<PowerReading>;

/// `heapless::Deque::new`: an empty queue.
#[verifier::external_body]
pub(crate) fn new_power_readings() -> (queue: Deque<PowerReading, 20>)
    ensures
        power_readings(queue) == Seq::<PowerReading>::empty(),
{
    Deque::new()
}

/// `heapless::Deque::len`: how many items the queue holds, at most its capacity.
#[verifier::external_body]
pub(crate) fn len_power_readings(queue: &Deque<PowerReading, 20>) -> (len: usize)
    ensures
        len == power_readings(*queue).len(),
        len <= POWER_READINGS,
{
    queue.len()
}

/// `heapless::Deque::pop_front`: takes the item at the front out, if there is one.
#[verifier::external_body]
pub(crate) fn pop_power_reading(queue: &mut Deque<PowerReading, 20>) -> (front: Option<
    PowerReading,
>)
    ensures
        match front {
            Some(item) => power_readings(*old(queue)).len() > 0 && item == power_readings(
                *old(queue),
            )[0] && power_readings(*final(queue)) == power_readings(*old(queue)).drop_first(),
            None => power_readings(*old(queue)).len() == 0 && power_readings(*final(queue))
                == power_readings(*old(queue)),
        },
{
    queue.pop_front()
}

/// `heapless::Deque::push_back`: puts the item at the back, or hands it back where the queue holds
/// as many items as it can.
#[verifier::external_body]
pub(crate) fn push_power_reading(queue: &mut Deque<PowerReading, 20>, item: PowerReading) -> (
    refused: Option<PowerReading>)
    ensures
        match refused {
            None => power_readings(*final(queue)) == power_readings(*old(queue)).push(item),
            Some(back) => back == item && power_readings(*old(queue)).len() == POWER_READINGS
                && power_readings(*final(queue)) == power_readings(*old(queue)),
        },
{
    queue.push_back(item).err()
}

/// `heapless::Deque::iter`: the items, front to back.
#[verifier::external_body]
pub(crate) fn list_power_readings(queue: &Deque<PowerReading, 20>) -> (items: Vec<PowerReading>)
    ensures
        items@ == power_readings(*queue),
{
    queue.iter().copied().collect()
}

/// How many bytes of a frame that is coming in are buffered.
pub const FRAME_BUFFER_SIZE: usize = 1024;

/// The bytes in the vector.
pub uninterp spec fn frame_bytes(list: heapless::Vec<u8, 1024>) -> Seq<u8>;

/// `heapless::Vec::new`: an empty vector.
#[verifier::external_body]
pub(crate) fn new_frame() -> (list: heapless::Vec<u8, 1024>)
    ensures
        frame_bytes(list) == Seq::<u8>::empty(),
{
    heapless::Vec::new()
}

/// `heapless::Vec::extend_from_slice`: puts the bytes at the end, or leaves the vector as it is
/// where they do not fit.
#[verifier::external_body]
pub(crate) fn extend_frame(list: &mut heapless::Vec<u8, 1024>, bytes: &[u8]) -> (done: bool)
    ensures
        done == (frame_bytes(*old(list)).len() + bytes@.len() <= FRAME_BUFFER_SIZE),
        frame_bytes(*final(list)) == if done {
            frame_bytes(*old(list)) + bytes@
        } else {
            frame_bytes(*old(list))
        },
{
    list.extend_from_slice(bytes).is_ok()
}

/// `heapless::Vec::clear`: takes everything out.
#[verifier::external_body]
pub(crate) fn clear_frame(list: &mut heapless::Vec<u8, 1024>)
    ensures
        frame_bytes(*final(list)) == Seq::<u8>::empty(),
{
    list.clear()
}

/// `heapless::Vec::as_slice`: the bytes, in order.
#[verifier::external_body]
pub(crate) fn frame_slice(list: &heapless::Vec<u8, 1024>) -> (bytes: &[u8])
    ensures
        bytes@ == frame_bytes(*list),
{
    list.as_slice()
}

/// The sequence numbers in the vector.
pub uninterp spec fn sequence_numbers(list: heapless::Vec<u8, 64>) -> Seq<u8>;

/// `heapless::Vec::new`: an empty vector.
#[verifier::external_body]
pub(crate) fn new_sequence() -> (list: heapless::Vec<u8, 64>)
    ensures
        sequence_numbers(list) == Seq::<u8>::empty(),
{
    heapless::Vec::new()
}

/// `heapless::Vec::insert`: puts the item at the index and moves those behind it up by one, or
/// hands it back where the vector holds as many items as it can.
#[verifier::external_body]
pub(crate) fn insert_sequence(list: &mut heapless::Vec<u8, 64>, index: usize, item: u8) -> (
    refused: Option<u8>)
    requires
        index <= sequence_numbers(*old(list)).len(),
    ensures
        match refused {
            None => sequence_numbers(*final(list)) == sequence_numbers(*old(list)).insert(
                index as int,
                item,
            ),
            Some(back) => back == item && sequence_numbers(*old(list)).len() == RECEPTIONS
                && sequence_numbers(*final(list)) == sequence_numbers(*old(list)),
        },
{
    list.insert(index, item).err()
}

/// `heapless::Vec::as_slice`: the items, in order.
#[verifier::external_body]
pub(crate) fn sequence_slice(list: &heapless::Vec<u8, 64>) -> (items: &[u8])
    ensures
        items@ == sequence_numbers(*list),
{
    list.as_slice()
}

/// The valve states in the vector.
pub uninterp spec fn valve_list(list: heapless::Vec<(ValveId, ValveState), 4>) -> Seq<
    (ValveId, ValveState),
>;

/// `heapless::Vec::new`: an empty vector.
#[verifier::external_body]
pub(crate) fn new_valves() -> (list: heapless::Vec<(ValveId, ValveState), 4>)
    ensures
        valve_list(list) == Seq::<(ValveId, ValveState)>::empty(),
{
    heapless::Vec::new()
}

/// `heapless::Vec::push`: puts the item at the end, or hands it back where the vector holds as
/// many items as it can.
#[verifier::external_body]
pub(crate) fn push_valve(
    list: &mut heapless::Vec<(ValveId, ValveState), 4>,
    item: (ValveId, ValveState),
) -> (refused: Option<(ValveId, ValveState)>)
    ensures
        valve_list(*final(list)).len() <= 4,
        match refused {
            None => valve_list(*final(list)) == valve_list(*old(list)).push(item),
            Some(back) => back == item && valve_list(*old(list)).len() == 4 && valve_list(
                *final(list),
            ) == valve_list(*old(list)),
        },
{
    list.push(item).err()
}

/// `heapless::Vec::as_slice`: the items, in order.
#[verifier::external_body]
pub(crate) fn valve_slice(list: &heapless::Vec<(ValveId, ValveState), 4>) -> (items: &[(
    ValveId,
    ValveState,
)])
    ensures
        items@ == valve_list(*list),
{
    list.as_slice()
}

/// The states of binary outputs in the vector.
pub uninterp spec fn output_list(list: heapless::Vec<(BinaryOutputId, bool), 4>) -> Seq<
    (BinaryOutputId, bool),
>;

/// `heapless::Vec::new`: an empty vector.
#[verifier::external_body]
pub(crate) fn new_outputs() -> (list: heapless::Vec<(BinaryOutputId, bool), 4>)
    ensures
        output_list(list) == Seq::<(BinaryOutputId, bool)>::empty(),
{
    heapless::Vec::new()
}

/// `heapless::Vec::push`: puts the item at the end, or hands it back where the vector holds as
/// many items as it can.
#[verifier::external_body]
pub(crate) fn push_output(
    list: &mut heapless::Vec<(BinaryOutputId, bool), 4>,
    item: (BinaryOutputId, bool),
) -> (refused: Option<(BinaryOutputId, bool)>)
    ensures
        output_list(*final(list)).len() <= 4,
        match refused {
            None => output_list(*final(list)) == output_list(*old(list)).push(item),
            Some(back) => back == item && output_list(*old(list)).len() == 4 && output_list(
                *final(list),
            ) == output_list(*old(list)),
        },
{
    list.push(item).err()
}

/// `heapless::Vec::as_slice`: the items, in order.
#[verifier::external_body]
pub(crate) fn output_slice(list: &heapless::Vec<(BinaryOutputId, bool), 4>) -> (items: &[(
    BinaryOutputId,
    bool,
)])
    ensures
        items@ == output_list(*list),
{
    list.as_slice()
}

/// The sensor readings in the vector.
pub uninterp spec fn reading_list(list: heapless::Vec<SensorReading, 4>) -> Seq<SensorReading>;

/// `heapless::Vec::new`: an empty vector.
#[verifier::external_body]
pub(crate) fn new_readings() -> (list: heapless::Vec<SensorReading, 4>)
    ensures
        reading_list(list) == Seq::<SensorReading>::empty(),
{
    heapless::Vec::new()
}

/// `heapless::Vec::push`: puts the item at the end, or hands it back where the vector holds as
/// many items as it can.
#[verifier::external_body]
pub(crate) fn push_reading(
    list: &mut heapless::Vec<SensorReading, 4>,
    item: SensorReading,
) -> (refused: Option<SensorReading>)
    ensures
        reading_list(*final(list)).len() <= 4,
        match refused {
            None => reading_list(*final(list)) == reading_list(*old(list)).push(item),
            Some(back) => back == item && reading_list(*old(list)).len() == 4 && reading_list(
                *final(list),
            ) == reading_list(*old(list)),
        },
{
    list.push(item).err()
}

/// `heapless::Vec::as_slice`: the items, in order.
#[verifier::external_body]
pub(crate) fn reading_slice(list: &heapless::Vec<SensorReading, 4>) -> (items: &[SensorReading])
    ensures
        items@ == reading_list(*list),
{
    list.as_slice()
}

/// The bytes in the vector.
pub uninterp spec fn payload_bytes(list: heapless::Vec<u8, 4>) -> Seq<u8>;

/// `heapless::Vec::from_slice`: a copy of the items, where they fit.
#[verifier::external_body]
pub(crate) fn payload_from_slice(bytes: &[u8]) -> (list: Option<heapless::Vec<u8, 4>>)
    ensures
        match list {
            Some(list) => bytes.len() <= 4 && payload_bytes(list) == bytes@,
            None => bytes.len() > 4,
        },
{
    heapless::Vec::from_slice(bytes).ok()
}

/// `heapless::Vec::as_slice`: the items, in order.
#[verifier::external_body]
pub(crate) fn payload_slice(list: &heapless::Vec<u8, 4>) -> (bytes: &[u8])
    ensures
        bytes@ == payload_bytes(*list),
        bytes.len() <= 4,
{
    list.as_slice()
}

} // verus!
