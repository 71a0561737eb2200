//! The tracker array: four trackers behind one session, each with its block
//! of registers at a fixed stride from the first.

use vstd::prelude::*;
use crate::decode::{Binary32, decode_f32, decode_i16, decode_u16, decode_u8, f32_values,
    i16_values, low_byte, u8_values};
use crate::device::{answer, f32_at, i16_at};
use crate::request::{Request, answers, words_of, f32_read, i16_read, u16_read, u8_read,
    spec_f32_read, spec_i16_read, spec_u16_read, spec_u8_read};

verus! {

/// The number of trackers in the array.
pub const TRACKER_COUNT: u16 = 4;

/// The address of the first register of tracker 0.
pub const TRACKER_ORIGIN: u16 = 30_152;

/// The distance between the register blocks of two neighbouring trackers.
pub const TRACKER_STRIDE: u16 = 23;

/// Offsets of the fields from a tracker's base address.
pub const ANGLE_OFFSET: u16 = 0;
pub const MOTOR_CURRENT_OFFSET: u16 = 2;
pub const TARGET_ANGLE_OFFSET: u16 = 4;
pub const TEMPERATURE_OFFSET: u16 = 14;
pub const STATE_OF_CHARGE_OFFSET: u16 = 7;

/// The number of requests that read one tracker.
pub const TRACKER_READS: usize = 5;

/// One tracker's measurements.
#[derive(Clone, Copy, Debug, PartialEq, Eq, Structural)]
pub struct TrackerRecord {
    pub angle: Binary32,
    pub motor_current: u16,
    pub target_angle: Binary32,
    pub temperature: i16,
    pub state_of_charge: u8,
}

/// The base address of tracker `index`, as a number.
pub open spec fn base_address(index: u16) -> int {
    index * TRACKER_STRIDE + TRACKER_ORIGIN
}

/// Whether every register of tracker `index` has a 16-bit address.
pub open spec fn addressable(index: u16) -> bool {
    base_address(index) + TEMPERATURE_OFFSET <= u16::MAX
}

/// Tests whether every register of tracker `index` has a 16-bit address.
pub fn is_addressable(index: u16) -> (yes: bool)
    ensures
        yes == addressable(index),
{
    index <= (u16::MAX - TEMPERATURE_OFFSET - TRACKER_ORIGIN) / TRACKER_STRIDE
}

/// The base address of tracker `index`.
pub fn tracker_base(index: u16) -> (address: u16)
    requires
        base_address(index) <= u16::MAX,
    ensures
        address == base_address(index),
        address == index * 23 + 30_152,
{
    index * TRACKER_STRIDE + TRACKER_ORIGIN
}

/// The bases of two trackers stand in the order of their indices: they rise
/// strictly, so no two trackers share a base.
pub proof fn bases_rise(i: u16, j: u16)
    requires
        i < j,
    ensures
        base_address(i) < base_address(j),
        base_address(i) + TRACKER_STRIDE <= base_address(j),
{
}

/// The requests that read tracker `index`, in the order in which they are made.
pub open spec fn tracker_schedule(index: u16) -> Seq<Request> {
    let base = base_address(index);
    seq![
        spec_f32_read((base + ANGLE_OFFSET) as u16, 1),
        spec_u16_read((base + MOTOR_CURRENT_OFFSET) as u16, 1),
        spec_f32_read((base + TARGET_ANGLE_OFFSET) as u16, 1),
        spec_i16_read((base + TEMPERATURE_OFFSET) as u16, 1),
        spec_u8_read((base + STATE_OF_CHARGE_OFFSET) as u16, 2),
    ]
}

/// Whether `replies` have the shape of the answers to one tracker's requests:
/// five answers, of two, one, two, one and one words.
pub open spec fn tracker_shaped(replies: Seq<Seq<u16>>) -> bool {
    &&& replies.len() == TRACKER_READS
    &&& replies[0].len() == 2
    &&& replies[1].len() == 1
    &&& replies[2].len() == 2
    &&& replies[3].len() == 1
    &&& replies[4].len() == 1
}

/// The answers to the requests of any tracker have that shape.
pub proof fn answers_are_shaped(index: u16, replies: Seq<Seq<u16>>)
    requires
        answers(tracker_schedule(index), replies),
    ensures
        tracker_shaped(replies),
{
}

/// The record that the answers to a tracker's requests decode to.
pub open spec fn tracker_record(replies: Seq<Seq<u16>>) -> TrackerRecord {
    TrackerRecord {
        angle: f32_values(replies[0])[0],
        motor_current: replies[1][0],
        target_angle: f32_values(replies[2])[0],
        temperature: i16_values(replies[3])[0],
        state_of_charge: u8_values(replies[4])[1],
    }
}

/// The record of tracker `index` of an array that holds
/// `registers(unit, address)` in its registers: each measurement is the
/// value at its offset from the tracker's base, and the state of charge is
/// the low byte of its register.
pub open spec fn tracker_at(registers: spec_fn(u8, int) -> u16, unit: u8, index: u16) -> TrackerRecord {
    let base = base_address(index);
    TrackerRecord {
        angle: f32_at(registers, unit, base + ANGLE_OFFSET),
        motor_current: registers(unit, base + MOTOR_CURRENT_OFFSET),
        target_angle: f32_at(registers, unit, base + TARGET_ANGLE_OFFSET),
        temperature: i16_at(registers, unit, base + TEMPERATURE_OFFSET),
        state_of_charge: low_byte(registers(unit, base + STATE_OF_CHARGE_OFFSET)),
    }
}

/// The answers of a still array to the requests of tracker `index` decode
/// to the values at the tracker's addresses.
pub proof fn tracker_by_address(
    registers: spec_fn(u8, int) -> u16,
    unit: u8,
    index: u16,
    replies: Seq<Seq<u16>>,
)
    requires
        addressable(index),
        replies.len() == TRACKER_READS,
        forall|k: int|
            0 <= k < TRACKER_READS ==> #[trigger] replies[k] == answer(
                registers,
                unit,
                tracker_schedule(index)[k],
            ),
    ensures
        answers(tracker_schedule(index), replies),
        tracker_record(replies) == tracker_at(registers, unit, index),
{
}

/// Appends the requests that read tracker `index` to `requests`.
pub fn push_tracker_requests(requests: &mut Vec<Request>, index: u16)
    requires
        addressable(index),
    ensures
        final(requests)@ == old(requests)@ + tracker_schedule(index),
{
    let base: u16 = tracker_base(index);
    requests.push(f32_read(base + ANGLE_OFFSET, 1));
    requests.push(u16_read(base + MOTOR_CURRENT_OFFSET, 1));
    requests.push(f32_read(base + TARGET_ANGLE_OFFSET, 1));
    requests.push(i16_read(base + TEMPERATURE_OFFSET, 1));
    requests.push(u8_read(base + STATE_OF_CHARGE_OFFSET, 2));
}

/// Decodes the record of one tracker from the answers to its requests, which
/// are the five entries of `replies` from `first` on.
pub fn read_tracker(replies: &Vec<Vec<u16>>, first: usize) -> (record: TrackerRecord)
    requires
        first + TRACKER_READS <= replies.len(),
        tracker_shaped(words_of(replies@).subrange(first as int, first + TRACKER_READS)),
    ensures
        record == tracker_record(words_of(replies@).subrange(first as int, first + TRACKER_READS)),
{
    let angle = decode_f32(replies[first].as_slice());
    let motor_current = decode_u16(replies[first + 1].as_slice());
    let target_angle = decode_f32(replies[first + 2].as_slice());
    let temperature = decode_i16(replies[first + 3].as_slice());
    let state_of_charge = decode_u8(replies[first + 4].as_slice());
    TrackerRecord {
        angle: angle[0],
        motor_current: motor_current[0],
        target_angle: target_angle[0],
        temperature: temperature[0],
        state_of_charge: state_of_charge[1],
    }
}

} // verus!
