//! Register decoding and device addressing for a small solar plant: a pair of
//! inverters, an array of four trackers and a weather station, all read as
//! 16-bit registers over one word-read primitive.
//!
//! The crate holds no transport. A poll is a fixed exchange of requests and
//! replies; the caller performs each request on its session and hands the
//! reply back, and the poll ends with the typed records or with the error of
//! the read that failed.
//!
//! A poll begins with [`poll::Poll::begin`]. The caller makes the request
//! that [`poll::Poll::request`] names and gives the answer to
//! [`poll::Poll::advance`], until that returns the records or the error.
//! The caller holds the lock of the session from the first request to the
//! last, so that nothing else selects a unit or reads in between.
//!
//! Numbers in binary32 format are held as their bit patterns
//! ([`decode::Binary32`]); the conversion to a float is the caller's.

pub mod decode;
pub mod device;
pub mod inverter;
pub mod poll;
pub mod request;
pub mod target;
pub mod tracker;
pub mod weather;
