//! A still device: registers that hold their words while a poll runs.
//!
//! A session answers a read with the words of the unit that is active,
//! which is the unit of the last selection made on it. Against such a device
//! every request has one answer, and so every poll has one result: the
//! values that stand at the addresses of the fields.

use vstd::prelude::*;
use crate::decode::{Binary32, pair_bits, signed16, signed32};
use crate::request::Request;

verus! {

/// The unit that is active when request `at` of `requests` is made, on a
/// session on which `initial` was active before the first of them.
pub open spec fn active_unit(requests: Seq<Request>, at: int, initial: u8) -> u8
    decreases at,
{
    if at <= 0 {
        initial
    } else {
        match requests[at - 1] {
            Request::SelectUnit { unit } => unit,
            Request::Read { .. } => active_unit(requests, at - 1, initial),
        }
    }
}

/// The answer to `request` of a device that holds `registers(unit, address)`
/// in each register of each unit, while `unit` is active.
pub open spec fn answer(registers: spec_fn(u8, int) -> u16, unit: u8, request: Request) -> Seq<u16> {
    match request {
        Request::SelectUnit { .. } => Seq::empty(),
        Request::Read { address, count } => Seq::new(
            count as nat,
            |k: int| registers(unit, address + k),
        ),
    }
}

/// The answers of such a device to `requests`, made in order on a session
/// on which `initial` was active before.
pub open spec fn still_answers(
    registers: spec_fn(u8, int) -> u16,
    initial: u8,
    requests: Seq<Request>,
) -> Seq<Seq<u16>> {
    Seq::new(
        requests.len(),
        |at: int| answer(registers, active_unit(requests, at, initial), requests[at]),
    )
}

/// The binary32 number in the two registers from `address` on.
pub open spec fn f32_at(registers: spec_fn(u8, int) -> u16, unit: u8, address: int) -> Binary32 {
    Binary32 { bits: pair_bits(registers(unit, address), registers(unit, address + 1)) }
}

/// The signed 32-bit integer in the two registers from `address` on.
pub open spec fn i32_at(registers: spec_fn(u8, int) -> u16, unit: u8, address: int) -> i32 {
    signed32(pair_bits(registers(unit, address), registers(unit, address + 1)))
}

/// The signed 16-bit integer in the register at `address`.
pub open spec fn i16_at(registers: spec_fn(u8, int) -> u16, unit: u8, address: int) -> i16 {
    signed16(registers(unit, address))
}

/// Reads change nothing: between two selections the same unit stays active.
pub proof fn unit_stays_active(requests: Seq<Request>, from: int, to: int, initial: u8)
    requires
        0 <= from <= to <= requests.len(),
        forall|k: int| from <= k < to ==> requests[k] is Read,
    ensures
        active_unit(requests, to, initial) == active_unit(requests, from, initial),
    decreases to - from,
{
    if from < to {
        unit_stays_active(requests, from, to - 1, initial);
    }
}

} // verus!
