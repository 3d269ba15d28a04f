//! The multi-clock timestamp model. All times are UTC.

use vstd::prelude::*;

verus! {

/// A UTC instant: whole seconds since 1970-01-01T00:00:00Z and the
/// nanoseconds past that second (above 999,999,999 only within a leap
/// second), as `chrono::DateTime<Utc>` holds it.
#[derive(Clone, Copy, Debug, PartialEq, Eq, Structural)]
pub struct Timestamp {
    pub secs: i64,
    pub nanos: u32,
}

impl Timestamp {
    /// Non-leap microseconds since the Unix epoch (chrono's
    /// `timestamp_micros`): the seconds times a million plus the whole
    /// microseconds of the fraction.
    pub open spec fn spec_micros(self) -> int {
        self.secs * 1_000_000 + self.nanos / 1000
    }

    /// Microseconds since the Unix epoch, computed without overflow.
    pub fn timestamp_micros(&self) -> (us: i128)
        ensures
            us == self.spec_micros(),
    {
        (self.secs as i128) * 1_000_000 + ((self.nanos / 1000) as i128)
    }
}

/// Calls `chrono::Utc::now` and returns the seconds (`timestamp`) and the
/// sub-second nanoseconds (`timestamp_subsec_nanos`). The chrono source
/// builds the value from `SystemTime::now().duration_since(UNIX_EPOCH)`, so
/// the seconds are not negative and the nanoseconds are below one billion;
/// the instant itself is unstated. It panics when the system clock is set
/// before 1970.
#[verifier::external_body]
fn utc_now() -> (t: Timestamp)
    ensures
        t.secs >= 0,
        t.nanos < 1_000_000_000,
{
    let now = chrono::Utc::now();
    Timestamp { secs: now.timestamp(), nanos: now.timestamp_subsec_nanos() }
}

/// Returns the current UTC timestamp.
pub fn now() -> (t: Timestamp)
    ensures
        t.secs >= 0,
        t.nanos < 1_000_000_000,
{
    utc_now()
}

/// Every event carries these timestamps, one optional field per clock.
#[derive(Clone, Copy, Debug, PartialEq, Eq, Structural)]
pub struct EventTimestamps {
    /// Exchange-reported timestamp.
    pub ts_exchange: Option<Timestamp>,
    /// Local machine receipt time.
    pub ts_local_rx: Option<Timestamp>,
    /// When the strategy committed.
    pub ts_decision: Option<Timestamp>,
    /// When the order was transmitted.
    pub ts_order_tx: Option<Timestamp>,
    /// When the ack was received.
    pub ts_ack_rx: Option<Timestamp>,
    /// When the fill was received.
    pub ts_fill_rx: Option<Timestamp>,
}

impl EventTimestamps {
    /// Whether at least one clock is set.
    pub open spec fn any_set(self) -> bool {
        ||| self.ts_exchange is Some
        ||| self.ts_local_rx is Some
        ||| self.ts_decision is Some
        ||| self.ts_order_tx is Some
        ||| self.ts_ack_rx is Some
        ||| self.ts_fill_rx is Some
    }

    /// No clock set.
    pub fn empty() -> (ts: EventTimestamps)
        ensures
            ts.ts_exchange is None,
            ts.ts_local_rx is None,
            ts.ts_decision is None,
            ts.ts_order_tx is None,
            ts.ts_ack_rx is None,
            ts.ts_fill_rx is None,
    {
        EventTimestamps {
            ts_exchange: None,
            ts_local_rx: None,
            ts_decision: None,
            ts_order_tx: None,
            ts_ack_rx: None,
            ts_fill_rx: None,
        }
    }

    /// Only the local receipt clock set, to the current time.
    pub fn local_now() -> (ts: EventTimestamps)
        ensures
            ts.ts_local_rx is Some,
            ts.ts_local_rx.unwrap().secs >= 0,
            ts.ts_local_rx.unwrap().nanos < 1_000_000_000,
            ts.ts_exchange is None,
            ts.ts_decision is None,
            ts.ts_order_tx is None,
            ts.ts_ack_rx is None,
            ts.ts_fill_rx is None,
    {
        EventTimestamps { ts_local_rx: Some(now()), ..EventTimestamps::empty() }
    }
}

} // verus!
