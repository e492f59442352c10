//! Verified core of a WMI client: WQL query text, error-code tables,
//! value conversions between CIM types, and the parsers for WMI's
//! textual date, time and interval formats.

mod text;
pub mod order;
pub mod num;
pub mod wql;
pub mod hres;
pub mod error;
pub mod duration;
pub mod real_bits;
pub mod variant;
pub mod raw;
pub mod convert;
pub mod query_sink;
pub mod datetime;
pub mod datetime_time;
pub mod connection;

pub use text::{chars_of, string_of};

use vstd::prelude::*;

verus! {

/// Stands for the examples of the README, which are checked as documentation
/// tests.
pub struct ReadmeDoctests;

/// Accepts only values that can be sent to another thread; calling it on a
/// value of a type that must stay on one thread (such as a connection, which
/// holds COM objects) does not compile.
pub fn _test_not_send(_s: impl Send) {
}

} // verus!
