use std::collections::HashMap;

use solar_poll::poll::{Poll, Progress};
use solar_poll::request::Request;
use solar_poll::target::{decode_records, requests, Records, Target};

/// A session over registers held in memory: one bank of registers for each
/// unit identifier, a log of the requests made, and a request that fails.
struct Session {
    unit: u8,
    registers: HashMap<(u8, u16), u16>,
    log: Vec<Request>,
    failing: Option<usize>,
}

impl Session {
    fn new() -> Session {
        Session { unit: 1, registers: HashMap::new(), log: Vec::new(), failing: None }
    }

    fn set(&mut self, unit: u8, address: u16, words: &[u16]) {
        for (k, word) in words.iter().enumerate() {
            self.registers.insert((unit, address + k as u16), *word);
        }
    }

    fn set_f32(&mut self, unit: u8, address: u16, value: f32) {
        let bytes = value.to_be_bytes();
        let words = [
            u16::from_be_bytes([bytes[0], bytes[1]]),
            u16::from_be_bytes([bytes[2], bytes[3]]),
        ];
        self.set(unit, address, &words);
    }

    fn set_i32(&mut self, unit: u8, address: u16, value: i32) {
        let bytes = value.to_be_bytes();
        let words = [
            u16::from_be_bytes([bytes[0], bytes[1]]),
            u16::from_be_bytes([bytes[2], bytes[3]]),
        ];
        self.set(unit, address, &words);
    }

    fn perform(&mut self, request: Request) -> Result<Vec<u16>, String> {
        let step = self.log.len();
        self.log.push(request);
        match request {
            Request::SelectUnit { unit } => {
                self.unit = unit;
                Ok(Vec::new())
            }
            Request::Read { address, count } => {
                if self.failing == Some(step) {
                    return Err(format!("read {} of {} at {} failed", step, count, address));
                }
                Ok((0..count)
                    .map(|k| *self.registers.get(&(self.unit, address + k)).unwrap_or(&0))
                    .collect())
            }
        }
    }
}

fn run(target: Target, session: &mut Session) -> Result<Records, String> {
    assert!(target.is_supported());
    let mut poll = Poll::begin(target);
    loop {
        let reply = session.perform(poll.request());
        assert!(poll.accepts(&reply));
        match poll.advance(reply) {
            Progress::Pending(next) => poll = next,
            Progress::Complete(records) => return Ok(records),
            Progress::Aborted(error) => return Err(error),
        }
    }
}

fn read(address: u16, count: u16) -> Request {
    Request::Read { address, count }
}

fn inverter_reads() -> Vec<Request> {
    vec![
        read(30_071, 1),
        read(32_064, 2),
        read(32_080, 2),
        read(32_082, 2),
        read(32_084, 1),
        read(32_086, 1),
        read(32_087, 1),
        read(32_016, 24),
    ]
}

#[test]
fn weather_poll_reads_wind_speed_at_119() {
    let mut session = Session::new();
    session.set_f32(1, 119, 3.5);
    match run(Target::Weather, &mut session) {
        Ok(Records::Weather(record)) => {
            assert_eq!(f32::from_bits(record.wind_speed.bits), 3.5);
            assert_eq!(f32::from_bits(record.wind_direction.bits), 0.0);
            assert_eq!(f32::from_bits(record.gti.bits), 0.0);
        }
        other => panic!("no weather record: {:?}", other),
    }
}

#[test]
fn weather_poll_reads_each_field_at_its_own_address() {
    let fields: [(u16, f32); 10] = [
        (119, 3.5),
        (121, 270.0),
        (15, 45.25),
        (25, -7.5),
        (35, 1013.25),
        (45, 120.0),
        (55, 800.5),
        (65, 650.0),
        (123, 0.2),
        (79, 910.75),
    ];
    let mut session = Session::new();
    for (address, value) in fields {
        session.set_f32(1, address, value);
    }
    let record = match run(Target::Weather, &mut session) {
        Ok(Records::Weather(record)) => record,
        other => panic!("no weather record: {:?}", other),
    };
    assert_eq!(f32::from_bits(record.wind_speed.bits), 3.5);
    assert_eq!(f32::from_bits(record.wind_direction.bits), 270.0);
    assert_eq!(f32::from_bits(record.relative_humidity.bits), 45.25);
    assert_eq!(f32::from_bits(record.temperature.bits), -7.5);
    assert_eq!(f32::from_bits(record.atmospheric_pressure.bits), 1013.25);
    assert_eq!(f32::from_bits(record.dhi.bits), 120.0);
    assert_eq!(f32::from_bits(record.ghi.bits), 800.5);
    assert_eq!(f32::from_bits(record.dni.bits), 650.0);
    assert_eq!(f32::from_bits(record.precipitation.bits), 0.2);
    assert_eq!(f32::from_bits(record.gti.bits), 910.75);
    assert_eq!(
        session.log,
        vec![
            read(119, 2),
            read(121, 2),
            read(15, 2),
            read(25, 2),
            read(35, 2),
            read(45, 2),
            read(55, 2),
            read(65, 2),
            read(123, 2),
            read(79, 2),
        ]
    );
}

#[test]
fn weather_poll_passes_nan_through() {
    let mut session = Session::new();
    session.set(1, 55, &[0x7FC0, 0x0001]);
    session.set(1, 65, &[0x7F80, 0x0000]);
    let record = match run(Target::Weather, &mut session) {
        Ok(Records::Weather(record)) => record,
        other => panic!("no weather record: {:?}", other),
    };
    assert_eq!(record.ghi.bits, 0x7FC0_0001);
    assert!(f32::from_bits(record.ghi.bits).is_nan());
    assert_eq!(f32::from_bits(record.dni.bits), f32::INFINITY);
}

#[test]
fn tracker_poll_reads_motor_current_of_tracker_2_at_30200() {
    let mut session = Session::new();
    session.set(1, 30_200, &[42]);
    let records = match run(Target::Trackers, &mut session) {
        Ok(Records::Trackers(records)) => records,
        other => panic!("no tracker records: {:?}", other),
    };
    assert_eq!(records[2].motor_current, 42);
    assert_eq!(records[0].motor_current, 0);
    assert_eq!(records[1].motor_current, 0);
    assert_eq!(records[3].motor_current, 0);
    assert_eq!(session.log[10], read(30_198, 2));
    assert_eq!(session.log[11], read(30_200, 1));
}

#[test]
fn tracker_poll_reads_four_trackers_in_index_order() {
    let mut session = Session::new();
    for index in 0..4u16 {
        let base = index * 23 + 30_152;
        session.set_f32(1, base, 10.0 + index as f32);
        session.set(1, base + 2, &[100 + index]);
        session.set_f32(1, base + 4, -20.5 - index as f32);
        session.set(1, base + 14, &[(-(index as i16) - 1) as u16]);
        session.set(1, base + 7, &[0xAA00 + 50 + index]);
    }
    let records = match run(Target::Trackers, &mut session) {
        Ok(Records::Trackers(records)) => records,
        other => panic!("no tracker records: {:?}", other),
    };
    assert_eq!(records.len(), 4);
    for index in 0..4usize {
        let record = records[index];
        assert_eq!(f32::from_bits(record.angle.bits), 10.0 + index as f32);
        assert_eq!(record.motor_current, 100 + index as u16);
        assert_eq!(f32::from_bits(record.target_angle.bits), -20.5 - index as f32);
        assert_eq!(record.temperature, -(index as i16) - 1);
        assert_eq!(record.state_of_charge, 50 + index as u8);
    }
    let mut expected = Vec::new();
    for base in [30_152u16, 30_175, 30_198, 30_221] {
        expected.push(read(base, 2));
        expected.push(read(base + 2, 1));
        expected.push(read(base + 4, 2));
        expected.push(read(base + 14, 1));
        expected.push(read(base + 7, 1));
    }
    assert_eq!(session.log, expected);
}

#[test]
fn inverter_poll_selects_each_unit_before_its_reads() {
    let mut session = Session::new();
    let result = run(Target::Inverters, &mut session);
    assert!(matches!(result, Ok(Records::Inverters(_))));
    let mut expected = vec![Request::SelectUnit { unit: 1 }];
    expected.extend(inverter_reads());
    expected.push(Request::SelectUnit { unit: 2 });
    expected.extend(inverter_reads());
    assert_eq!(session.log, expected);

    let selections: Vec<usize> = (0..session.log.len())
        .filter(|k| matches!(session.log[*k], Request::SelectUnit { .. }))
        .collect();
    assert_eq!(selections, vec![0, 9]);
    let reads: Vec<u16> = session
        .log
        .iter()
        .filter_map(|request| match request {
            Request::Read { count, .. } => Some(*count),
            Request::SelectUnit { .. } => None,
        })
        .collect();
    assert_eq!(reads.len(), 16);
    assert_eq!(reads.iter().filter(|count| **count == 24).count(), 2);
    assert_eq!(reads.iter().filter(|count| **count <= 2).count(), 14);
    assert_eq!(session.unit, 2);
}

#[test]
fn inverter_poll_returns_the_units_in_order() {
    let mut session = Session::new();
    for unit in [1u8, 2u8] {
        let offset = unit as u16 * 1_000;
        session.set(unit, 30_071, &[offset + 12]);
        session.set_i32(unit, 32_064, 500_000 + unit as i32);
        session.set_i32(unit, 32_080, -400_000 - unit as i32);
        session.set_i32(unit, 32_082, unit as i32 - 3);
        session.set(unit, 32_084, &[(-(offset as i16)) as u16]);
        session.set(unit, 32_086, &[offset + 985]);
        session.set(unit, 32_087, &[offset + 45]);
        let window: Vec<u16> = (0..24u16).map(|k| (k as i16 * 10 - offset as i16) as u16).collect();
        session.set(unit, 32_016, &window);
    }
    // Polled with the second unit active, to show that the poll selects.
    session.unit = 2;
    let records = match run(Target::Inverters, &mut session) {
        Ok(Records::Inverters(records)) => records,
        other => panic!("no inverter records: {:?}", other),
    };
    assert_eq!(records.len(), 2);
    for (place, unit) in [1i32, 2i32].into_iter().enumerate() {
        let offset = unit * 1_000;
        let record = records[place];
        assert_eq!(record.number_of_string as i32, offset + 12);
        assert_eq!(record.input_power, 500_000 + unit);
        assert_eq!(record.active_power, -400_000 - unit);
        assert_eq!(record.reactive_power, unit - 3);
        assert_eq!(record.power_factor as i32, -offset);
        assert_eq!(record.efficiency as i32, offset + 985);
        assert_eq!(record.temperature as i32, offset + 45);
        for k in 0..24usize {
            assert_eq!(record.pv_voltage_current[k] as i32, k as i32 * 10 - offset);
        }
    }
}

#[test]
fn single_tracker_poll_reads_a_nonzero_angle() {
    let mut session = Session::new();
    session.set_f32(1, 30_152, 12.75);
    let record = match run(Target::Tracker { index: 0 }, &mut session) {
        Ok(Records::Tracker(record)) => record,
        other => panic!("no tracker record: {:?}", other),
    };
    assert!(f32::from_bits(record.angle.bits) != 0.0);
    assert_eq!(f32::from_bits(record.angle.bits), 12.75);
    assert_eq!(
        session.log,
        vec![
            read(30_152, 2),
            read(30_154, 1),
            read(30_156, 2),
            read(30_166, 1),
            read(30_159, 1),
        ]
    );
}

#[test]
fn single_tracker_poll_reads_base_30198_for_tracker_2() {
    let mut session = Session::new();
    session.set(1, 30_200, &[42]);
    session.set(1, 30_205, &[0x6321]);
    let record = match run(Target::Tracker { index: 2 }, &mut session) {
        Ok(Records::Tracker(record)) => record,
        other => panic!("no tracker record: {:?}", other),
    };
    assert_eq!(record.motor_current, 42);
    assert_eq!(record.state_of_charge, 0x21);
    assert_eq!(session.log[0], read(30_198, 2));
    assert_eq!(session.log[1], read(30_200, 1));
}

#[test]
fn single_inverter_poll_reads_the_active_unit() {
    let mut session = Session::new();
    session.set(1, 30_071, &[6]);
    session.set(2, 30_071, &[9]);
    session.unit = 2;
    let record = match run(Target::Inverter, &mut session) {
        Ok(Records::Inverter(record)) => record,
        other => panic!("no inverter record: {:?}", other),
    };
    assert!(record.number_of_string > 0);
    assert_eq!(record.number_of_string, 9);
    assert_eq!(session.log, inverter_reads());
    assert_eq!(session.unit, 2);
}

#[test]
fn trackers_beyond_the_address_space_are_not_supported() {
    assert!(Target::Weather.is_supported());
    assert!(Target::Trackers.is_supported());
    assert!(Target::Inverter.is_supported());
    assert!(Target::Inverters.is_supported());
    assert!(Target::Tracker { index: 0 }.is_supported());
    assert!(Target::Tracker { index: 3 }.is_supported());
    assert!(Target::Tracker { index: 1_537 }.is_supported());
    assert!(!Target::Tracker { index: 1_538 }.is_supported());
    assert!(!Target::Tracker { index: u16::MAX }.is_supported());
}

#[test]
fn failed_read_fails_the_whole_poll() {
    let targets = [
        Target::Weather,
        Target::Tracker { index: 1 },
        Target::Trackers,
        Target::Inverter,
        Target::Inverters,
    ];
    for target in targets {
        let steps = requests(target);
        for (step, request) in steps.iter().enumerate() {
            if matches!(request, Request::SelectUnit { .. }) {
                continue;
            }
            let mut session = Session::new();
            session.failing = Some(step);
            let result = run(target, &mut session);
            match (result, request) {
                (Err(error), Request::Read { address, count }) => {
                    assert_eq!(error, format!("read {} of {} at {} failed", step, count, address));
                }
                (other, _) => panic!("step {} of {:?} failed, yet: {:?}", step, target, other),
            }
            // Nothing is asked after the read that failed.
            assert_eq!(session.log.len(), step + 1);
            assert_eq!(session.log[..], steps[..step + 1]);
        }
    }
}

#[test]
fn failed_read_of_the_second_inverter_returns_no_first_record() {
    let mut session = Session::new();
    session.set(1, 30_071, &[8]);
    session.failing = Some(17);
    let result = run(Target::Inverters, &mut session);
    assert_eq!(result, Err("read 17 of 24 at 32016 failed".to_string()));
}

#[test]
fn error_is_handed_back_unchanged() {
    #[derive(Debug, PartialEq)]
    struct Timeout {
        after_ms: u32,
    }
    let poll = Poll::begin(Target::Trackers);
    let poll = match poll.advance::<Timeout>(Ok(vec![1, 2])) {
        Progress::Pending(next) => next,
        other => panic!("the poll ended early: {:?}", other),
    };
    match poll.advance(Err(Timeout { after_ms: 250 })) {
        Progress::Aborted(error) => assert_eq!(error, Timeout { after_ms: 250 }),
        other => panic!("the poll went on: {:?}", other),
    }
}

#[test]
fn poll_accepts_answers_of_the_size_asked_for() {
    let poll = Poll::begin(Target::Inverters);
    assert_eq!(poll.request(), Request::SelectUnit { unit: 1 });
    assert!(poll.accepts::<()>(&Ok(vec![])));
    assert!(!poll.accepts::<()>(&Ok(vec![0])));
    assert!(poll.accepts(&Err("timeout")));
    let poll = match poll.advance::<()>(Ok(vec![])) {
        Progress::Pending(next) => next,
        other => panic!("the poll ended early: {:?}", other),
    };
    assert_eq!(poll.request(), read(30_071, 1));
    assert!(poll.accepts::<()>(&Ok(vec![12])));
    assert!(!poll.accepts::<()>(&Ok(vec![])));
    assert!(!poll.accepts::<()>(&Ok(vec![12, 13])));
    assert!(poll.accepts(&Err(404)));
}

#[test]
fn poll_begins_with_the_first_request_of_its_target() {
    assert_eq!(Poll::begin(Target::Weather).request(), read(119, 2));
    assert_eq!(Poll::begin(Target::Trackers).request(), read(30_152, 2));
    assert_eq!(Poll::begin(Target::Inverters).request(), Request::SelectUnit { unit: 1 });
}

#[test]
fn poll_is_pending_until_the_last_answer() {
    let steps = requests(Target::Weather);
    let mut poll = Poll::begin(Target::Weather);
    for (step, request) in steps.iter().enumerate() {
        assert_eq!(poll.request(), *request);
        match poll.advance::<()>(Ok(vec![0x4060, 0])) {
            Progress::Pending(next) => {
                assert!(step + 1 < steps.len());
                poll = next;
            }
            Progress::Complete(records) => {
                assert_eq!(step + 1, steps.len());
                match records {
                    Records::Weather(record) => assert_eq!(record.gti.bits, 0x4060_0000),
                    other => panic!("not a weather record: {:?}", other),
                }
                return;
            }
            Progress::Aborted(()) => panic!("aborted without an error"),
        }
    }
    panic!("the poll never ended");
}

#[test]
fn requests_list_the_whole_poll() {
    assert_eq!(requests(Target::Weather).len(), 10);
    assert_eq!(requests(Target::Trackers).len(), 20);
    let inverters = requests(Target::Inverters);
    assert_eq!(inverters.len(), 18);
    assert_eq!(inverters[0], Request::SelectUnit { unit: 1 });
    assert_eq!(inverters[1..9], inverter_reads()[..]);
    assert_eq!(inverters[9], Request::SelectUnit { unit: 2 });
    assert_eq!(inverters[10..18], inverter_reads()[..]);
}

#[test]
fn records_are_decoded_from_the_answers() {
    let mut replies: Vec<Vec<u16>> = Vec::new();
    for index in 0..4u16 {
        replies.push(vec![0x4060, index]);
        replies.push(vec![index + 1]);
        replies.push(vec![0x3F80, 0]);
        replies.push(vec![0xFFFF - index]);
        replies.push(vec![0x0100 * index + 0x63]);
    }
    match decode_records(Target::Trackers, &replies) {
        Records::Trackers(records) => {
            for index in 0..4usize {
                assert_eq!(records[index].angle.bits, 0x4060_0000 + index as u32);
                assert_eq!(records[index].motor_current, index as u16 + 1);
                assert_eq!(f32::from_bits(records[index].target_angle.bits), 1.0);
                assert_eq!(records[index].temperature, -1 - index as i16);
                assert_eq!(records[index].state_of_charge, 0x63);
            }
        }
        other => panic!("not tracker records: {:?}", other),
    }
}
