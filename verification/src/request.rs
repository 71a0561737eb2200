//! Requests to a device session, and the word counts of typed reads.
//!
//! A session answers a read of `count` registers with `count` words, and a
//! unit selection with none. A typed read asks for a quantity of values of one
//! kind; how many registers that takes depends on the kind.

use vstd::prelude::*;

verus! {

/// One request to a device session.
#[derive(Clone, Copy, Debug, PartialEq, Eq, Structural)]
pub enum Request {
    /// Make `unit` the active unit identifier of the session.
    SelectUnit { unit: u8 },
    /// Read `count` consecutive registers, starting at `address`.
    Read { address: u16, count: u16 },
}

impl Request {
    /// The number of words in the answer to the request.
    pub open spec fn words(self) -> nat {
        match self {
            Request::SelectUnit { .. } => 0,
            Request::Read { count, .. } => count as nat,
        }
    }
}

/// The words of each of `replies`.
pub open spec fn words_of(replies: Seq<Vec<u16>>) -> Seq<Seq<u16>> {
    replies.map_values(|reply: Vec<u16>| reply@)
}

/// Whether `replies` answer `requests` one for one, each with as many words
/// as its request asks for.
pub open spec fn answers(requests: Seq<Request>, replies: Seq<Seq<u16>>) -> bool {
    &&& replies.len() == requests.len()
    &&& forall|k: int| 0 <= k < requests.len() ==> (#[trigger] replies[k]).len() == requests[k].words()
}

/// The read of `quantity` binary32 values at `address`: two registers each.
pub open spec fn spec_f32_read(address: u16, quantity: u16) -> Request {
    Request::Read { address, count: (2 * quantity) as u16 }
}

/// The read of `quantity` signed 32-bit values at `address`: two registers each.
pub open spec fn spec_i32_read(address: u16, quantity: u16) -> Request {
    Request::Read { address, count: (2 * quantity) as u16 }
}

/// The read of `quantity` signed 16-bit values at `address`: one register each.
pub open spec fn spec_i16_read(address: u16, quantity: u16) -> Request {
    Request::Read { address, count: quantity }
}

/// The read of `quantity` unsigned 16-bit values at `address`: one register each.
pub open spec fn spec_u16_read(address: u16, quantity: u16) -> Request {
    Request::Read { address, count: quantity }
}

/// The read of `quantity` bytes at `address`: one register for two bytes, and
/// none for an odd byte left over.
pub open spec fn spec_u8_read(address: u16, quantity: u16) -> Request {
    Request::Read { address, count: quantity / 2 }
}

/// Makes the read of `quantity` binary32 values at `address`.
#[verifier::when_used_as_spec(spec_f32_read)]
pub fn f32_read(address: u16, quantity: u16) -> (request: Request)
    requires
        2 * quantity <= u16::MAX,
    ensures
        request == spec_f32_read(address, quantity),
{
    Request::Read { address, count: 2 * quantity }
}

/// Makes the read of `quantity` signed 32-bit values at `address`.
#[verifier::when_used_as_spec(spec_i32_read)]
pub fn i32_read(address: u16, quantity: u16) -> (request: Request)
    requires
        2 * quantity <= u16::MAX,
    ensures
        request == spec_i32_read(address, quantity),
{
    Request::Read { address, count: 2 * quantity }
}

/// Makes the read of `quantity` signed 16-bit values at `address`.
#[verifier::when_used_as_spec(spec_i16_read)]
pub fn i16_read(address: u16, quantity: u16) -> (request: Request)
    ensures
        request == spec_i16_read(address, quantity),
{
    Request::Read { address, count: quantity }
}

/// Makes the read of `quantity` unsigned 16-bit values at `address`.
#[verifier::when_used_as_spec(spec_u16_read)]
pub fn u16_read(address: u16, quantity: u16) -> (request: Request)
    ensures
        request == spec_u16_read(address, quantity),
{
    Request::Read { address, count: quantity }
}

/// Makes the read of `quantity` bytes at `address`.
#[verifier::when_used_as_spec(spec_u8_read)]
pub fn u8_read(address: u16, quantity: u16) -> (request: Request)
    ensures
        request == spec_u8_read(address, quantity),
{
    Request::Read { address, count: quantity / 2 }
}

} // verus!
