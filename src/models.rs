//! The response records, each assembled fresh for one request and stamped
//! with the time it was assembled.

use vstd::prelude::*;

verus! {

/// An instant, as whole seconds and nanoseconds since the Unix epoch (UTC).
#[derive(Clone, Copy, Debug, PartialEq, Eq, Structural)]
pub struct Timestamp {
    pub secs: i64,
    pub nanos: u32,
}

impl Timestamp {
    /// Not before the epoch, and the nanoseconds under one second.
    pub open spec fn wf(&self) -> bool {
        0 <= self.secs && self.nanos < 1_000_000_000
    }
}

/// Relies on chrono::Utc::now, read back through DateTime::timestamp and
/// DateTime::timestamp_subsec_nanos: chrono builds the instant from the
/// system clock's duration since the epoch, so the seconds are not negative
/// and the nanoseconds are under one second. (chrono panics where the clock
/// reads before the epoch.)
#[verifier::external_body]
pub(crate) fn now() -> (r: Timestamp)
    ensures
        r.wf(),
{
    let t = chrono::Utc::now();
    Timestamp { secs: t.timestamp(), nanos: t.timestamp_subsec_nanos() }
}

/// The answer to a health probe.
#[derive(Clone, Debug)]
pub struct HealthResponse {
    pub status: String,
    pub service: String,
    pub time: Timestamp,
}

/// The counts of all four upstream collections.
#[derive(Clone, Copy, Debug, PartialEq, Eq, Structural)]
pub struct Summary {
    pub total_users: usize,
    pub total_products: usize,
    pub total_orders: usize,
    pub total_notifications: usize,
    pub timestamp: Timestamp,
}

/// The count of the users collection.
#[derive(Clone, Copy, Debug, PartialEq, Eq, Structural)]
pub struct UserStats {
    pub total: usize,
    pub timestamp: Timestamp,
}

/// The count of the products collection.
#[derive(Clone, Copy, Debug, PartialEq, Eq, Structural)]
pub struct ProductStats {
    pub total: usize,
    pub timestamp: Timestamp,
}

/// The count of the orders collection.
#[derive(Clone, Copy, Debug, PartialEq, Eq, Structural)]
pub struct OrderStats {
    pub total: usize,
    pub timestamp: Timestamp,
}

} // verus!
