//! The monitor: the latest resource-usage sample of the process, the unit the
//! platform reports it in, and the clock reading at which it was taken.

use crate::clock::{lemma_seconds_never_decrease, lemma_seconds_start_at_zero};
use crate::clock::{whole_seconds_between, Timestamp};
use crate::scale::{human_readable, human_text};
use crate::unit::Unit;
use vstd::prelude::*;

verus! {

/// What the monitor keeps of one resource-usage report of the operating
/// system: the peak resident set size, in the platform's native unit.
#[derive(Debug, Clone, Copy, PartialEq, Eq, Structural)]
pub struct ResourceSample {
    pub max_rss: i64,
}

/// The value of a monitor.
pub struct MonitorState {
    /// The unit in which the platform reports the peak resident set size.
    pub unit: Unit,
    /// The peak resident set size of the latest sample, in that unit.
    pub max_rss: int,
    /// The clock reading, in nanoseconds, at which that sample was taken.
    pub stamp: nat,
}

/// The 64-bit two's complement value that agrees with `value` in its low 64
/// bits.
pub open spec fn wrap_to_i64(value: int) -> int {
    let low = value % 0x1_0000_0000_0000_0000;
    if low >= 0x8000_0000_0000_0000 {
        low - 0x1_0000_0000_0000_0000
    } else {
        low
    }
}

impl MonitorState {
    /// The peak resident set size in bytes.
    pub open spec fn bytes(self) -> int {
        self.max_rss * self.unit.multiplier()
    }

    /// The whole seconds between the latest sample and the reading `now`.
    pub open spec fn elapsed_seconds(self, now: Timestamp) -> nat {
        whole_seconds_between(self.stamp, now@)
    }

    /// The state after an attempt to fetch a new sample at the reading `now`:
    /// a fetched sample replaces the old one together with its stamp, a failed
    /// attempt changes nothing.
    pub open spec fn refreshed(self, fetched: Result<ResourceSample, i32>, now: Timestamp) -> MonitorState {
        match fetched {
            Ok(sample) => MonitorState { unit: self.unit, max_rss: sample.max_rss as int, stamp: now@ },
            Err(_) => self,
        }
    }
}

/// Keeps the latest resource-usage sample of the process and reports it.
#[derive(Debug, Clone, Copy, PartialEq, Eq, Structural)]
pub struct MemoryMonitor {
    unit: Unit,
    data: ResourceSample,
    tm: Timestamp,
}

impl View for MemoryMonitor {
    type V = MonitorState;

    closed spec fn view(&self) -> MonitorState {
        MonitorState { unit: self.unit, max_rss: self.data.max_rss as int, stamp: self.tm@ }
    }
}

impl MemoryMonitor {
    /// Turns the outcome of the operating system's resource-usage query into
    /// a sample: `status` is what the query returned and `usage` what it
    /// filled in. Any status but zero is an error, handed on as it is.
    pub fn rusage(status: i32, usage: ResourceSample) -> (fetched: Result<ResourceSample, i32>)
        ensures
            status == 0 ==> fetched == Ok::<ResourceSample, i32>(usage),
            status != 0 ==> fetched == Err::<ResourceSample, i32>(status),
    {
        match status {
            0 => Ok(usage),
            code => Err(code),
        }
    }

    /// Makes a monitor for a platform that reports in `unit` from the first
    /// fetch, taken at the clock reading `now`. A failed fetch fails the
    /// construction with the same error code.
    pub fn new(unit: Unit, fetched: Result<ResourceSample, i32>, now: Timestamp) -> (made: Result<
        MemoryMonitor,
        i32,
    >)
        ensures
            match fetched {
                Ok(sample) => made matches Ok(monitor) && monitor@ == (MonitorState {
                    unit,
                    max_rss: sample.max_rss as int,
                    stamp: now@,
                }),
                Err(code) => made == Err::<MemoryMonitor, i32>(code),
            },
    {
        let data = match fetched {
            Ok(sample) => sample,
            Err(code) => {
                return Err(code);
            },
        };
        Ok(MemoryMonitor { unit, data, tm: now })
    }

    /// The peak resident set size in bytes: the sample times the multiplier
    /// of the platform's unit. A product outside the range of `i64` wraps
    /// around.
    pub fn memory(&self) -> (bytes: i64)
        ensures
            bytes == wrap_to_i64(self@.bytes()),
            i64::MIN <= self@.bytes() <= i64::MAX ==> bytes == self@.bytes(),
    {
        let factor: i64 = self.unit.as_u64() as i64;
        self.data.max_rss.wrapping_mul(factor)
    }

    /// The peak resident set size as text, such as `12.500 MB`. The scaling
    /// always starts from bytes, so a monitor of an unresolved platform
    /// shows its sample as if it were a count of bytes.
    pub fn hmem(&self) -> (text: String)
        ensures
            text@ == human_text(self@.bytes()),
    {
        human_readable(self.data.max_rss, self.unit)
    }

    /// Takes in the outcome of a new fetch, made at the clock reading `now`.
    /// A fetched sample replaces the stored one and its stamp; a failed fetch
    /// leaves the monitor exactly as it was. Returns whether the fetch had
    /// succeeded.
    pub fn refresh(&mut self, fetched: Result<ResourceSample, i32>, now: Timestamp) -> (updated: bool)
        ensures
            updated == fetched.is_ok(),
            final(self)@ == old(self)@.refreshed(fetched, now),
            fetched.is_err() ==> *final(self) == *old(self),
    {
        match fetched {
            Ok(sample) => {
                self.data = sample;
                self.tm = now;
                true
            },
            Err(_) => false,
        }
    }

    /// The whole seconds that have passed at the clock reading `now` since
    /// the stored sample was taken.
    pub fn sec_since_last_update(&self, now: Timestamp) -> (seconds: u64)
        ensures
            seconds == self@.elapsed_seconds(now),
    {
        now.seconds_since(self.tm)
    }
}

/// As long as no refresh succeeds, a later reading of the clock never reports
/// fewer elapsed seconds than an earlier one, whether or not a failed refresh
/// lies between the two.
pub proof fn lemma_elapsed_never_decreases(
    state: MonitorState,
    failure: i32,
    attempt: Timestamp,
    first: Timestamp,
    second: Timestamp,
)
    requires
        first@ <= second@,
    ensures
        state.elapsed_seconds(first) <= state.elapsed_seconds(second),
        state.elapsed_seconds(first) <= state.refreshed(
            Err(failure),
            attempt,
        ).elapsed_seconds(second),
{
    lemma_seconds_never_decrease(state.stamp, first@, second@);
}

/// Right after a successful refresh no whole second has passed: every reading
/// less than a second after the refresh reports zero.
pub proof fn lemma_refresh_restarts_elapsed(
    state: MonitorState,
    sample: ResourceSample,
    now: Timestamp,
    reading: Timestamp,
)
    requires
        now@ <= reading@ < now@ + 1_000_000_000,
    ensures
        state.refreshed(Ok(sample), now).elapsed_seconds(reading) == 0,
{
    lemma_seconds_start_at_zero(now@, reading@);
}

} // verus!
