//! The weather station: ten measurements, each a binary32 number in a
//! register pair of its own.

use vstd::prelude::*;
use crate::decode::{Binary32, decode_f32, f32_values};
use crate::device::{answer, f32_at};
use crate::request::{Request, answers, words_of, f32_read, spec_f32_read};

verus! {

/// Addresses of the measurements.
pub const WIND_SPEED: u16 = 119;
pub const WIND_DIRECTION: u16 = 121;
pub const RELATIVE_HUMIDITY: u16 = 15;
pub const TEMPERATURE: u16 = 25;
pub const ATMOSPHERIC_PRESSURE: u16 = 35;
pub const DHI: u16 = 45;
pub const GHI: u16 = 55;
pub const DNI: u16 = 65;
pub const PRECIPITATION: u16 = 123;
pub const GTI: u16 = 79;

/// The number of requests that read the station.
pub const WEATHER_READS: usize = 10;

/// The measurements of the weather station.
#[derive(Clone, Copy, Debug, PartialEq, Eq, Structural)]
pub struct WeatherRecord {
    pub wind_speed: Binary32,
    pub wind_direction: Binary32,
    pub relative_humidity: Binary32,
    pub temperature: Binary32,
    pub atmospheric_pressure: Binary32,
    /// Diffuse horizontal irradiance.
    pub dhi: Binary32,
    /// Global horizontal irradiance.
    pub ghi: Binary32,
    /// Direct normal irradiance.
    pub dni: Binary32,
    pub precipitation: Binary32,
    /// Global tilted irradiance.
    pub gti: Binary32,
}

/// The requests that read the station, in the order in which they are made.
pub open spec fn weather_schedule() -> Seq<Request> {
    seq![
        spec_f32_read(WIND_SPEED, 1),
        spec_f32_read(WIND_DIRECTION, 1),
        spec_f32_read(RELATIVE_HUMIDITY, 1),
        spec_f32_read(TEMPERATURE, 1),
        spec_f32_read(ATMOSPHERIC_PRESSURE, 1),
        spec_f32_read(DHI, 1),
        spec_f32_read(GHI, 1),
        spec_f32_read(DNI, 1),
        spec_f32_read(PRECIPITATION, 1),
        spec_f32_read(GTI, 1),
    ]
}

/// The record that the answers to the station's requests decode to.
pub open spec fn weather_record(replies: Seq<Seq<u16>>) -> WeatherRecord {
    WeatherRecord {
        wind_speed: f32_values(replies[0])[0],
        wind_direction: f32_values(replies[1])[0],
        relative_humidity: f32_values(replies[2])[0],
        temperature: f32_values(replies[3])[0],
        atmospheric_pressure: f32_values(replies[4])[0],
        dhi: f32_values(replies[5])[0],
        ghi: f32_values(replies[6])[0],
        dni: f32_values(replies[7])[0],
        precipitation: f32_values(replies[8])[0],
        gti: f32_values(replies[9])[0],
    }
}

/// The record of a station that holds `registers(unit, address)` in its
/// registers: each measurement is the number at its address.
pub open spec fn weather_at(registers: spec_fn(u8, int) -> u16, unit: u8) -> WeatherRecord {
    WeatherRecord {
        wind_speed: f32_at(registers, unit, WIND_SPEED as int),
        wind_direction: f32_at(registers, unit, WIND_DIRECTION as int),
        relative_humidity: f32_at(registers, unit, RELATIVE_HUMIDITY as int),
        temperature: f32_at(registers, unit, TEMPERATURE as int),
        atmospheric_pressure: f32_at(registers, unit, ATMOSPHERIC_PRESSURE as int),
        dhi: f32_at(registers, unit, DHI as int),
        ghi: f32_at(registers, unit, GHI as int),
        dni: f32_at(registers, unit, DNI as int),
        precipitation: f32_at(registers, unit, PRECIPITATION as int),
        gti: f32_at(registers, unit, GTI as int),
    }
}

/// The answers of a still station to the station's requests decode to the
/// numbers at the addresses of the measurements.
pub proof fn weather_by_address(
    registers: spec_fn(u8, int) -> u16,
    unit: u8,
    replies: Seq<Seq<u16>>,
)
    requires
        replies.len() == WEATHER_READS,
        forall|k: int|
            0 <= k < WEATHER_READS ==> #[trigger] replies[k] == answer(
                registers,
                unit,
                weather_schedule()[k],
            ),
    ensures
        answers(weather_schedule(), replies),
        weather_record(replies) == weather_at(registers, unit),
{
}

/// Appends the requests that read the station to `requests`.
pub fn push_weather_requests(requests: &mut Vec<Request>)
    ensures
        final(requests)@ == old(requests)@ + weather_schedule(),
{
    requests.push(f32_read(WIND_SPEED, 1));
    requests.push(f32_read(WIND_DIRECTION, 1));
    requests.push(f32_read(RELATIVE_HUMIDITY, 1));
    requests.push(f32_read(TEMPERATURE, 1));
    requests.push(f32_read(ATMOSPHERIC_PRESSURE, 1));
    requests.push(f32_read(DHI, 1));
    requests.push(f32_read(GHI, 1));
    requests.push(f32_read(DNI, 1));
    requests.push(f32_read(PRECIPITATION, 1));
    requests.push(f32_read(GTI, 1));
}

/// Decodes the one binary32 value that answer `at` of `replies` carries.
fn single_value(replies: &Vec<Vec<u16>>, at: usize) -> (value: Binary32)
    requires
        at < replies.len(),
        replies[at as int].len() == 2,
    ensures
        value == f32_values(replies[at as int]@)[0],
{
    let values = decode_f32(replies[at].as_slice());
    values[0]
}

/// Decodes the station's record from the answers to its requests, which are
/// the ten entries of `replies` from `first` on.
pub fn read_weather(replies: &Vec<Vec<u16>>, first: usize) -> (record: WeatherRecord)
    requires
        first + WEATHER_READS <= replies.len(),
        answers(weather_schedule(), words_of(replies@).subrange(first as int, first + WEATHER_READS)),
    ensures
        record == weather_record(words_of(replies@).subrange(first as int, first + WEATHER_READS)),
{
    let ghost taken = words_of(replies@).subrange(first as int, first + WEATHER_READS);
    assert forall|at: int| first <= at < first + WEATHER_READS implies (#[trigger] replies[at]).len() == 2
        && taken[at - first] == replies[at]@ by {
        assert(taken[at - first].len() == weather_schedule()[at - first].words());
    }
    WeatherRecord {
        wind_speed: single_value(replies, first),
        wind_direction: single_value(replies, first + 1),
        relative_humidity: single_value(replies, first + 2),
        temperature: single_value(replies, first + 3),
        atmospheric_pressure: single_value(replies, first + 4),
        dhi: single_value(replies, first + 5),
        ghi: single_value(replies, first + 6),
        dni: single_value(replies, first + 7),
        precipitation: single_value(replies, first + 8),
        gti: single_value(replies, first + 9),
    }
}

} // verus!
