//! What a poll reads: the requests of each target in their fixed order, and
//! the records that the answers to them decode to.

use vstd::prelude::*;
use crate::device::{active_unit, still_answers, unit_stays_active};
use crate::inverter::{InverterReading, InverterRecord, FIRST_UNIT, SECOND_UNIT, inverter_at,
    inverter_by_address, inverter_reading, inverter_schedule, push_inverter_requests,
    read_inverter};
use crate::request::{Request, answers, words_of};
use crate::tracker::{TrackerRecord, TRACKER_COUNT, addressable, answers_are_shaped,
    base_address, is_addressable, push_tracker_requests, read_tracker, tracker_at,
    tracker_by_address, tracker_record, tracker_schedule};
use crate::weather::{WeatherRecord, push_weather_requests, read_weather, weather_at,
    weather_by_address, weather_record, weather_schedule};

verus! {

/// What a poll reads. Each target is read on the session of its device
/// class: the weather station, the tracker array or the inverters.
#[derive(Clone, Copy, Debug, PartialEq, Eq, Structural)]
pub enum Target {
    /// The weather station.
    Weather,
    /// The tracker with this index.
    Tracker { index: u16 },
    /// The four trackers of the array.
    Trackers,
    /// The inverter whose unit identifier is active on the session.
    Inverter,
    /// The two inverters.
    Inverters,
}

/// The records that a poll ends with.
#[derive(Clone, Copy, Debug, PartialEq, Eq)]
pub enum Records {
    Weather(WeatherRecord),
    Tracker(TrackerRecord),
    /// The trackers in the order of their indices.
    Trackers([TrackerRecord; 4]),
    Inverter(InverterRecord),
    /// The inverters in the order of their unit identifiers.
    Inverters([InverterRecord; 2]),
}

/// The records of a poll as mathematical values.
pub enum Readings {
    Weather(WeatherRecord),
    Tracker(TrackerRecord),
    Trackers(Seq<TrackerRecord>),
    Inverter(InverterReading),
    Inverters(Seq<InverterReading>),
}

impl Target {
    /// Whether the target can be polled: every register of it has a 16-bit
    /// address. Only a tracker far beyond the array has not.
    pub open spec fn supported(self) -> bool {
        self matches Target::Tracker { index } ==> addressable(index)
    }

    /// Tests whether the target can be polled.
    pub fn is_supported(&self) -> (supported: bool)
        ensures
            supported == self.supported(),
    {
        match *self {
            Target::Tracker { index } => is_addressable(index),
            _ => true,
        }
    }
}

impl View for Records {
    type V = Readings;

    open spec fn view(&self) -> Readings {
        match *self {
            Records::Weather(record) => Readings::Weather(record),
            Records::Tracker(record) => Readings::Tracker(record),
            Records::Trackers(records) => Readings::Trackers(records@),
            Records::Inverter(record) => Readings::Inverter(record@),
            Records::Inverters(records) => Readings::Inverters(
                records@.map_values(|record: InverterRecord| record@),
            ),
        }
    }
}

/// The requests of a poll of `target`, in the order in which they are made.
///
/// The trackers of the array are read one after the other, from the first to
/// the last. Each of the two inverters is read after its unit identifier was
/// selected, the first unit before the second.
pub open spec fn schedule(target: Target) -> Seq<Request> {
    match target {
        Target::Weather => weather_schedule(),
        Target::Tracker { index } => tracker_schedule(index),
        Target::Inverter => inverter_schedule(),
        Target::Trackers => tracker_schedule(0) + tracker_schedule(1) + tracker_schedule(2)
            + tracker_schedule(3),
        Target::Inverters => seq![Request::SelectUnit { unit: FIRST_UNIT }]
            + inverter_schedule() + seq![Request::SelectUnit { unit: SECOND_UNIT }]
            + inverter_schedule(),
    }
}

/// The records that the answers to all requests of a poll of `target` decode
/// to.
pub open spec fn readings(target: Target, replies: Seq<Seq<u16>>) -> Readings {
    match target {
        Target::Weather => Readings::Weather(weather_record(replies)),
        Target::Tracker { .. } => Readings::Tracker(tracker_record(replies)),
        Target::Inverter => Readings::Inverter(inverter_reading(replies)),
        Target::Trackers => Readings::Trackers(
            seq![
                tracker_record(replies.subrange(0, 5)),
                tracker_record(replies.subrange(5, 10)),
                tracker_record(replies.subrange(10, 15)),
                tracker_record(replies.subrange(15, 20)),
            ],
        ),
        Target::Inverters => Readings::Inverters(
            seq![
                inverter_reading(replies.subrange(1, 9)),
                inverter_reading(replies.subrange(10, 18)),
            ],
        ),
    }
}

/// The records of `target` on a device that holds `registers(unit, address)`
/// in its registers: the values at the addresses of the fields. The unit is
/// the one that is active on the session, `initial`, but for the two
/// inverters, which are read as the first and the second unit.
pub open spec fn readings_at(
    target: Target,
    registers: spec_fn(u8, int) -> u16,
    initial: u8,
) -> Readings {
    match target {
        Target::Weather => Readings::Weather(weather_at(registers, initial)),
        Target::Tracker { index } => Readings::Tracker(tracker_at(registers, initial, index)),
        Target::Inverter => Readings::Inverter(inverter_at(registers, initial)),
        Target::Trackers => Readings::Trackers(
            Seq::new(TRACKER_COUNT as nat, |index: int| tracker_at(registers, initial, index as u16)),
        ),
        Target::Inverters => Readings::Inverters(
            seq![inverter_at(registers, FIRST_UNIT), inverter_at(registers, SECOND_UNIT)],
        ),
    }
}

/// Lists the requests of a poll of `target`.
pub fn requests(target: Target) -> (requests: Vec<Request>)
    requires
        target.supported(),
    ensures
        requests@ == schedule(target),
{
    let mut requests: Vec<Request> = Vec::new();
    match target {
        Target::Weather => {
            push_weather_requests(&mut requests);
        },
        Target::Tracker { index } => {
            push_tracker_requests(&mut requests, index);
        },
        Target::Inverter => {
            push_inverter_requests(&mut requests);
        },
        Target::Trackers => {
            push_tracker_requests(&mut requests, 0);
            push_tracker_requests(&mut requests, 1);
            push_tracker_requests(&mut requests, 2);
            push_tracker_requests(&mut requests, 3);
        },
        Target::Inverters => {
            requests.push(Request::SelectUnit { unit: FIRST_UNIT });
            push_inverter_requests(&mut requests);
            requests.push(Request::SelectUnit { unit: SECOND_UNIT });
            push_inverter_requests(&mut requests);
        },
    }
    requests
}

/// Decodes the records of a poll of `target` from the answers to all of its
/// requests.
pub fn decode_records(target: Target, replies: &Vec<Vec<u16>>) -> (records: Records)
    requires
        answers(schedule(target), words_of(replies@)),
    ensures
        records@ == readings(target, words_of(replies@)),
{
    let ghost all = words_of(replies@);
    match target {
        Target::Weather => {
            Records::Weather(read_weather(replies, 0))
        },
        Target::Tracker { index } => {
            proof {
                answers_are_shaped(index, all);
            }
            Records::Tracker(read_tracker(replies, 0))
        },
        Target::Inverter => {
            Records::Inverter(read_inverter(replies, 0))
        },
        Target::Trackers => {
            proof {
                answers_are_shaped(0, all.subrange(0, 5));
                answers_are_shaped(1, all.subrange(5, 10));
                answers_are_shaped(2, all.subrange(10, 15));
                answers_are_shaped(3, all.subrange(15, 20));
            }
            Records::Trackers(
                [
                    read_tracker(replies, 0),
                    read_tracker(replies, 5),
                    read_tracker(replies, 10),
                    read_tracker(replies, 15),
                ],
            )
        },
        Target::Inverters => {
            let first = read_inverter(replies, 1);
            let second = read_inverter(replies, 10);
            let records = [first, second];
            assert(records@.map_values(|record: InverterRecord| record@) == seq![first@, second@]);
            Records::Inverters(records)
        },
    }
}

/// A poll of a still device ends with the values at the addresses of the
/// fields: what its answers decode to is what stands in its registers. The
/// two inverters are read off the registers of their own units, whatever
/// unit was active on the session before the poll.
pub proof fn poll_of_still_device(target: Target, registers: spec_fn(u8, int) -> u16, initial: u8)
    requires
        target.supported(),
    ensures
        answers(schedule(target), still_answers(registers, initial, schedule(target))),
        readings(target, still_answers(registers, initial, schedule(target))) == readings_at(
            target,
            registers,
            initial,
        ),
{
    let requests = schedule(target);
    let replies = still_answers(registers, initial, requests);
    if target != Target::Inverters {
        // Nothing is selected, so the unit that was active stays so.
        assert forall|k: int| 0 <= k < requests.len() implies active_unit(requests, k, initial)
            == initial by {
            unit_stays_active(requests, 0, k, initial);
        }
    }
    match target {
        Target::Weather => {
            weather_by_address(registers, initial, replies);
        },
        Target::Tracker { index } => {
            tracker_by_address(registers, initial, index, replies);
        },
        Target::Inverter => {
            inverter_by_address(registers, initial, replies);
        },
        Target::Trackers => {
            tracker_by_address(registers, initial, 0, replies.subrange(0, 5));
            tracker_by_address(registers, initial, 1, replies.subrange(5, 10));
            tracker_by_address(registers, initial, 2, replies.subrange(10, 15));
            tracker_by_address(registers, initial, 3, replies.subrange(15, 20));
            let by_address = Seq::new(
                TRACKER_COUNT as nat,
                |index: int| tracker_at(registers, initial, index as u16),
            );
            assert(readings(target, replies)->Trackers_0 =~= by_address);
        },
        Target::Inverters => {
            inverters_in_unit_order(initial, replies);
            inverter_by_address(registers, FIRST_UNIT, replies.subrange(1, 9));
            inverter_by_address(registers, SECOND_UNIT, replies.subrange(10, 18));
        },
    }
}

/// A poll of the inverters selects the first unit and reads it, then selects
/// the second unit and reads it. So every read of the first unit is made
/// while that unit is active and before the second is selected, and every
/// read of the second while the second is active, whatever unit was active
/// before the poll. The records come in the same order, each decoded from
/// the answers that followed the selection of its unit.
pub proof fn inverters_in_unit_order(initial: u8, replies: Seq<Seq<u16>>)
    ensures
        schedule(Target::Inverters).len() == 18,
        schedule(Target::Inverters)[0] == (Request::SelectUnit { unit: 1 }),
        schedule(Target::Inverters).subrange(1, 9) == inverter_schedule(),
        schedule(Target::Inverters)[9] == (Request::SelectUnit { unit: 2 }),
        schedule(Target::Inverters).subrange(10, 18) == inverter_schedule(),
        forall|k: int|
            1 <= k < 10 ==> active_unit(schedule(Target::Inverters), k, initial) == 1,
        forall|k: int|
            10 <= k < 18 ==> active_unit(schedule(Target::Inverters), k, initial) == 2,
        readings(Target::Inverters, replies) == Readings::Inverters(
            seq![
                inverter_reading(replies.subrange(1, 9)),
                inverter_reading(replies.subrange(10, 18)),
            ],
        ),
{
    let requests = schedule(Target::Inverters);
    assert forall|k: int| 1 <= k < 10 implies active_unit(requests, k, initial) == 1 by {
        unit_stays_active(requests, 1, k, initial);
    }
    assert forall|k: int| 10 <= k < 18 implies active_unit(requests, k, initial) == 2 by {
        unit_stays_active(requests, 10, k, initial);
    }
}

/// A poll of the inverters makes two unit selections and sixteen reads.
/// For each unit, seven reads of a single value, of one or two registers,
/// are followed by one read of the twenty-four string readings.
pub proof fn inverter_poll_shape()
    ensures
        forall|k: int|
            0 <= k < 18 ==> ((#[trigger] schedule(Target::Inverters)[k]) is SelectUnit <==> k
                == 0 || k == 9),
        forall|k: int|
            0 <= k < 18 ==> ((#[trigger] schedule(Target::Inverters)[k]).words() == 24 <==> k
                == 8 || k == 17),
        forall|k: int|
            0 <= k < 18 && k != 0 && k != 8 && k != 9 && k != 17 ==> 1 <= (
            #[trigger] schedule(Target::Inverters)[k]).words() <= 2,
{
}

/// A poll of the trackers reads them in the order of their indices: the
/// requests of tracker `index` are the five from `5 * index` on, the first of
/// them at the tracker's base address, and its record is decoded from their
/// answers and stands at `index`.
pub proof fn trackers_in_index_order(replies: Seq<Seq<u16>>, index: u16)
    requires
        index < TRACKER_COUNT,
    ensures
        schedule(Target::Trackers).len() == 20,
        schedule(Target::Trackers).subrange(5 * index, 5 * index + 5) == tracker_schedule(
            index,
        ),
        schedule(Target::Trackers)[5 * index] == (Request::Read {
            address: base_address(index) as u16,
            count: 2,
        }),
        readings(Target::Trackers, replies) matches Readings::Trackers(records)
            && records.len() == 4 && records[index as int] == tracker_record(
            replies.subrange(5 * index, 5 * index + 5),
        ),
{
}

} // verus!
