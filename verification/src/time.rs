//! Instants in UTC, as `chrono::DateTime<Utc>` holds them, and the arithmetic
//! the endpoints do on them: comparing, adding whole seconds within chrono's
//! range, and the range checks of `chrono::TimeDelta` and of the `time` crate.
use vstd::prelude::*;

verus! {

/// An instant: whole seconds since the Unix epoch and the nanoseconds past them.
#[derive(Clone, Copy, Debug, PartialEq, Eq)]
pub struct UtcTime {
    pub secs: i64,
    pub nanos: u32,
}

/// The timestamp of `chrono`'s earliest `DateTime<Utc>` (-262143-01-01T00:00:00Z).
pub open spec fn min_utc_secs() -> int {
    -8334601228800
}

/// The timestamp of `chrono`'s latest `DateTime<Utc>` (+262142-12-31T23:59:59.999999999Z).
pub open spec fn max_utc_secs() -> int {
    8210266876799
}

/// The largest whole number of seconds in a `chrono::TimeDelta` (`i64::MAX` milliseconds).
pub open spec fn max_delta_secs() -> int {
    9223372036854775
}

/// The unix timestamps `time::OffsetDateTime::from_unix_timestamp` accepts:
/// years -9999 to 9999.
pub open spec fn cookie_time_range(ts: int) -> bool {
    -377705116800 <= ts <= 253402300799
}

impl UtcTime {
    /// A value that a `DateTime<Utc>` can hold.
    pub open spec fn valid(self) -> bool {
        &&& self.nanos < 1_000_000_000
        &&& min_utc_secs() <= self.secs <= max_utc_secs()
    }

    /// Strict order of instants, as `DateTime`'s `<` compares them.
    pub open spec fn earlier(self, other: UtcTime) -> bool {
        self.secs < other.secs || (self.secs == other.secs && self.nanos < other.nanos)
    }

    /// `DateTime::timestamp_millis`: whole milliseconds since the epoch, rounded down.
    pub open spec fn millis(self) -> int {
        self.secs * 1000 + self.nanos / 1_000_000
    }

    /// Whether a `DateTime<Utc>` can hold this value.
    pub fn is_valid(&self) -> (r: bool)
        ensures
            r == self.valid(),
    {
        self.nanos < 1_000_000_000 && -8334601228800 <= self.secs && self.secs <= 8210266876799
    }

    /// Whether `secs` whole seconds can be added without leaving chrono's range.
    pub fn can_add_secs(&self, secs: u64) -> (r: bool)
        ensures
            r == (self.secs + secs <= max_utc_secs()),
    {
        self.secs as i128 + secs as i128 <= 8210266876799
    }

    /// `self < other` for `DateTime<Utc>`.
    pub fn is_before(&self, other: &UtcTime) -> (r: bool)
        ensures
            r == self.earlier(*other),
    {
        self.secs < other.secs || (self.secs == other.secs && self.nanos < other.nanos)
    }

    /// `self + core::time::Duration::from_secs(secs)`. chrono panics where the
    /// sum leaves its range, so such sums are left out.
    pub fn plus_secs(&self, secs: u64) -> (r: UtcTime)
        requires
            self.valid(),
            self.secs + secs <= max_utc_secs(),
        ensures
            r.secs == self.secs + secs,
            r.nanos == self.nanos,
            r.valid(),
    {
        UtcTime { secs: self.secs + secs as i64, nanos: self.nanos }
    }

    /// `self + delta` for a `TimeDelta` of `secs` whole seconds; chrono panics
    /// where the sum leaves its range, so such sums are left out.
    pub fn plus_delta_secs(&self, secs: i64) -> (r: UtcTime)
        requires
            self.valid(),
            min_utc_secs() <= self.secs + secs <= max_utc_secs(),
        ensures
            r.secs == self.secs + secs,
            r.nanos == self.nanos,
            r.valid(),
    {
        UtcTime { secs: self.secs + secs, nanos: self.nanos }
    }

    /// `DateTime::timestamp_millis`.
    pub fn timestamp_millis(&self) -> (r: i64)
        requires
            self.valid(),
        ensures
            r == self.millis(),
    {
        self.secs * 1000 + (self.nanos / 1_000_000) as i64
    }
}

/// `chrono::TimeDelta::new(secs, 0)`, read back with `num_seconds`. The crate
/// returns `Some` exactly when `secs` seconds lie within `TimeDelta::MIN` and
/// `TimeDelta::MAX`, which are `i64::MAX` milliseconds either way.
#[verifier::external_body]
pub(crate) fn time_delta_secs(secs: i64) -> (r: Option<i64>)
    ensures
        r == (if -max_delta_secs() <= secs <= max_delta_secs() {
            Some(secs)
        } else {
            None::<i64>
        }),
{
    chrono::TimeDelta::new(secs, 0).map(|d| d.num_seconds())
}

/// `time::OffsetDateTime::from_unix_timestamp(ts)`, read back with
/// `unix_timestamp`. Without the crate's `large-dates` feature the accepted
/// timestamps are those from -9999-01-01T00:00:00Z to 9999-12-31T23:59:59Z.
#[verifier::external_body]
pub(crate) fn cookie_expiry(ts: i64) -> (r: Option<i64>)
    ensures
        r == (if cookie_time_range(ts as int) {
            Some(ts)
        } else {
            None::<i64>
        }),
{
    time::OffsetDateTime::from_unix_timestamp(ts).ok().map(|t| t.unix_timestamp())
}

/// `u64::cast_signed`: the same bits read as a signed number.
pub fn cast_signed(x: u64) -> (r: i64)
    ensures
        r == (if x <= i64::MAX { x as int } else { x - 0x1_0000_0000_0000_0000 }),
{
    if x <= 9223372036854775807 {
        x as i64
    } else {
        (x - 9223372036854775808) as i64 - 9223372036854775807 - 1
    }
}

} // verus!
