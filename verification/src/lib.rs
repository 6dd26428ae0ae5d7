//! Leasing of a parking space as a record on a transactional ledger.
//!
//! An owner registers a parking area and may amend it; any caller who knows
//! the area's secret key may extend the running lease, or take over a lapsed
//! one, by paying a fee proportional to the time asked for.
//!
//! The ledger itself (storage, clock, signatures, the movement of funds) is
//! outside this library: every function here works on plain values that the
//! surrounding program reads from the ledger and writes back to it.

pub mod bytes;
pub mod identity;

pub mod error;
pub mod record;
pub mod lease;
pub mod address;
pub mod program;
pub mod laws;
