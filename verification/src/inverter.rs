//! The inverters: two units behind one session, told apart by the unit
//! identifier that is active when a register is read. Both have the same
//! registers at the same addresses.

use vstd::prelude::*;
use crate::decode::{decode_i16, decode_i32, decode_u16, i16_values, i32_values};
use crate::device::{answer, i16_at, i32_at};
use crate::request::{Request, answers, words_of, i16_read, i32_read, u16_read, spec_i16_read,
    spec_i32_read, spec_u16_read};

verus! {

/// The unit identifiers of the two inverters, in the order in which they are
/// read and returned.
pub const FIRST_UNIT: u8 = 1;
pub const SECOND_UNIT: u8 = 2;

/// Addresses of the measurements.
pub const NUMBER_OF_STRING: u16 = 30_071;
pub const INPUT_POWER: u16 = 32_064;
pub const ACTIVE_POWER: u16 = 32_080;
pub const REACTIVE_POWER: u16 = 32_082;
pub const POWER_FACTOR: u16 = 32_084;
pub const EFFICIENCY: u16 = 32_086;
pub const TEMPERATURE: u16 = 32_087;
pub const PV_VOLTAGE_CURRENT: u16 = 32_016;

/// The number of voltage and current readings of the strings of one inverter.
pub const STRING_READINGS: usize = 24;

/// The number of requests that read one inverter.
pub const INVERTER_READS: usize = 8;

/// One inverter's measurements.
#[derive(Clone, Copy, Debug, PartialEq, Eq)]
pub struct InverterRecord {
    pub number_of_string: u16,
    pub input_power: i32,
    pub active_power: i32,
    pub reactive_power: i32,
    pub power_factor: i16,
    pub efficiency: u16,
    pub temperature: i16,
    pub pv_voltage_current: [i16; 24],
}

/// One inverter's measurements as mathematical values.
pub struct InverterReading {
    pub number_of_string: u16,
    pub input_power: i32,
    pub active_power: i32,
    pub reactive_power: i32,
    pub power_factor: i16,
    pub efficiency: u16,
    pub temperature: i16,
    pub pv_voltage_current: Seq<i16>,
}

impl View for InverterRecord {
    type V = InverterReading;

    open spec fn view(&self) -> InverterReading {
        InverterReading {
            number_of_string: self.number_of_string,
            input_power: self.input_power,
            active_power: self.active_power,
            reactive_power: self.reactive_power,
            power_factor: self.power_factor,
            efficiency: self.efficiency,
            temperature: self.temperature,
            pv_voltage_current: self.pv_voltage_current@,
        }
    }
}

/// The requests that read the unit that is active, in the order in which
/// they are made.
pub open spec fn inverter_schedule() -> Seq<Request> {
    seq![
        spec_u16_read(NUMBER_OF_STRING, 1),
        spec_i32_read(INPUT_POWER, 1),
        spec_i32_read(ACTIVE_POWER, 1),
        spec_i32_read(REACTIVE_POWER, 1),
        spec_i16_read(POWER_FACTOR, 1),
        spec_u16_read(EFFICIENCY, 1),
        spec_i16_read(TEMPERATURE, 1),
        spec_i16_read(PV_VOLTAGE_CURRENT, 24),
    ]
}

/// The measurements that the answers to an inverter's requests decode to.
pub open spec fn inverter_reading(replies: Seq<Seq<u16>>) -> InverterReading {
    InverterReading {
        number_of_string: replies[0][0],
        input_power: i32_values(replies[1])[0],
        active_power: i32_values(replies[2])[0],
        reactive_power: i32_values(replies[3])[0],
        power_factor: i16_values(replies[4])[0],
        efficiency: replies[5][0],
        temperature: i16_values(replies[6])[0],
        pv_voltage_current: i16_values(replies[7]),
    }
}

/// The measurements of unit `unit` of a pair of inverters that holds
/// `registers(unit, address)` in its registers: each is the value at its
/// address, and the string readings are the twenty-four values from theirs.
pub open spec fn inverter_at(registers: spec_fn(u8, int) -> u16, unit: u8) -> InverterReading {
    InverterReading {
        number_of_string: registers(unit, NUMBER_OF_STRING as int),
        input_power: i32_at(registers, unit, INPUT_POWER as int),
        active_power: i32_at(registers, unit, ACTIVE_POWER as int),
        reactive_power: i32_at(registers, unit, REACTIVE_POWER as int),
        power_factor: i16_at(registers, unit, POWER_FACTOR as int),
        efficiency: registers(unit, EFFICIENCY as int),
        temperature: i16_at(registers, unit, TEMPERATURE as int),
        pv_voltage_current: Seq::new(
            STRING_READINGS as nat,
            |k: int| i16_at(registers, unit, PV_VOLTAGE_CURRENT + k),
        ),
    }
}

/// The answers of a still inverter to the requests of a unit, made while
/// that unit is active, decode to the values at the addresses of the unit.
pub proof fn inverter_by_address(
    registers: spec_fn(u8, int) -> u16,
    unit: u8,
    replies: Seq<Seq<u16>>,
)
    requires
        replies.len() == INVERTER_READS,
        forall|k: int|
            0 <= k < INVERTER_READS ==> #[trigger] replies[k] == answer(
                registers,
                unit,
                inverter_schedule()[k],
            ),
    ensures
        answers(inverter_schedule(), replies),
        inverter_reading(replies) == inverter_at(registers, unit),
{
    assert(inverter_reading(replies).pv_voltage_current =~= inverter_at(
        registers,
        unit,
    ).pv_voltage_current);
}

/// Appends the requests that read the active unit to `requests`.
pub fn push_inverter_requests(requests: &mut Vec<Request>)
    ensures
        final(requests)@ == old(requests)@ + inverter_schedule(),
{
    requests.push(u16_read(NUMBER_OF_STRING, 1));
    requests.push(i32_read(INPUT_POWER, 1));
    requests.push(i32_read(ACTIVE_POWER, 1));
    requests.push(i32_read(REACTIVE_POWER, 1));
    requests.push(i16_read(POWER_FACTOR, 1));
    requests.push(u16_read(EFFICIENCY, 1));
    requests.push(i16_read(TEMPERATURE, 1));
    requests.push(i16_read(PV_VOLTAGE_CURRENT, 24));
}

/// Lays the readings of the strings out as the array of a record.
pub fn string_readings(values: &Vec<i16>) -> (readings: [i16; 24])
    requires
        values.len() == STRING_READINGS,
    ensures
        readings@ == values@,
{
    let mut readings: [i16; 24] = [0i16; 24];
    let mut k: usize = 0;
    while k < STRING_READINGS
        invariant
            k <= STRING_READINGS,
            values.len() == STRING_READINGS,
            forall|j: int| 0 <= j < k ==> readings[j] == values[j],
        decreases STRING_READINGS - k,
    {
        readings[k] = values[k];
        k = k + 1;
    }
    readings
}

/// Decodes the record of one inverter from the answers to its requests,
/// which are the eight entries of `replies` from `first` on.
pub fn read_inverter(replies: &Vec<Vec<u16>>, first: usize) -> (record: InverterRecord)
    requires
        first + INVERTER_READS <= replies.len(),
        answers(
            inverter_schedule(),
            words_of(replies@).subrange(first as int, first + INVERTER_READS),
        ),
    ensures
        record@ == inverter_reading(
            words_of(replies@).subrange(first as int, first + INVERTER_READS),
        ),
{
    let ghost taken = words_of(replies@).subrange(first as int, first + INVERTER_READS);
    assert forall|at: int| first <= at < first + INVERTER_READS implies (#[trigger] replies[at]).len()
        == inverter_schedule()[at - first].words() && taken[at - first] == replies[at]@ by {
        assert(taken[at - first].len() == inverter_schedule()[at - first].words());
    }
    let number_of_string = decode_u16(replies[first].as_slice());
    let input_power = decode_i32(replies[first + 1].as_slice());
    let active_power = decode_i32(replies[first + 2].as_slice());
    let reactive_power = decode_i32(replies[first + 3].as_slice());
    let power_factor = decode_i16(replies[first + 4].as_slice());
    let efficiency = decode_u16(replies[first + 5].as_slice());
    let temperature = decode_i16(replies[first + 6].as_slice());
    let pv_voltage_current = decode_i16(replies[first + 7].as_slice());
    InverterRecord {
        number_of_string: number_of_string[0],
        input_power: input_power[0],
        active_power: active_power[0],
        reactive_power: reactive_power[0],
        power_factor: power_factor[0],
        efficiency: efficiency[0],
        temperature: temperature[0],
        pv_voltage_current: string_readings(&pv_voltage_current),
    }
}

} // verus!
