//! The simulated wall clock: a reference datetime anchored to a monotonic
//! millisecond tick, advanced on demand by whole elapsed seconds.
//!
//! The clock is empty until the first datetime command arrives; every
//! datetime command replaces the reference wholesale.  Carry runs across
//! seconds, minutes and hours; day-level carry increments the day-of-month
//! directly, without month or year rollover (the host re-syncs at least
//! daily, so multi-day drift does not arise in practice).

use vstd::prelude::*;

use crate::komsi::KomsiDateTime;

verus! {

/// The simulated wall clock: the last synced datetime and the monotonic
/// millisecond instant at which it was synced, or nothing before the first
/// sync.
#[derive(Debug, Clone, Copy)]
pub struct Clock {
    pub reference: Option<(KomsiDateTime, u64)>,
}

/// The datetime advanced by `secs` whole seconds, carrying across seconds,
/// minutes and hours.  Day-level carry adds to the day-of-month modulo 256
/// (the field's width) and leaves month and year untouched.
pub open spec fn spec_add_seconds(dt: KomsiDateTime, secs: u64) -> KomsiDateTime {
    let total_secs = dt.sec + secs;
    let total_mins = dt.min + total_secs / 60;
    let total_hours = dt.hour + total_mins / 60;
    let days = total_hours / 24;
    KomsiDateTime {
        year: dt.year,
        month: dt.month,
        day: ((dt.day + days % 256) % 256) as u8,
        hour: (total_hours % 24) as u8,
        min: (total_mins % 60) as u8,
        sec: (total_secs % 60) as u8,
    }
}

/// Advance a datetime by `secs` whole seconds with carry across seconds,
/// minutes and hours; day-level carry wraps the day-of-month field.
pub fn add_seconds(dt: &mut KomsiDateTime, secs: u64)
    requires
        old(dt).sec + secs <= u64::MAX,
    ensures
        *final(dt) == spec_add_seconds(*old(dt), secs),
{
    let total_secs = dt.sec as u64 + secs;
    dt.sec = (total_secs % 60) as u8;

    let total_mins = dt.min as u64 + total_secs / 60;
    dt.min = (total_mins % 60) as u8;

    let total_hours = dt.hour as u64 + total_mins / 60;
    dt.hour = (total_hours % 24) as u8;

    let days_to_add = total_hours / 24;
    if days_to_add > 0 {
        dt.day = ((dt.day as u64 + days_to_add % 256) % 256) as u8;
    }
}

impl Clock {
    /// A clock that has never been synced.
    pub fn new() -> (c: Clock)
        ensures
            c.reference is None,
    {
        Clock { reference: None }
    }

    /// Replace the reference wholesale: the given datetime is anchored to
    /// the given monotonic millisecond instant.
    pub fn sync_system_time(&mut self, dt: KomsiDateTime, now_ms: u64)
        ensures
            final(self).reference == Some((dt, now_ms)),
    {
        self.reference = Some((dt, now_ms));
    }

    /// What `get_current_time_for_j1939` returns at the given monotonic
    /// instant: nothing before the first sync, otherwise the reference
    /// datetime advanced by the whole seconds elapsed since its anchor.
    pub open spec fn spec_now(self, now_ms: u64) -> Option<KomsiDateTime> {
        match self.reference {
            None => None,
            Some((dt, base_ms)) => {
                let elapsed_secs = if now_ms >= base_ms {
                    (now_ms - base_ms) / 1000
                } else {
                    0
                };
                if elapsed_secs == 0 {
                    Some(dt)
                } else {
                    Some(spec_add_seconds(dt, elapsed_secs as u64))
                }
            },
        }
    }

    /// The current simulated time at the given monotonic millisecond
    /// instant, or nothing if the clock was never synced.
    pub fn get_current_time_for_j1939(&self, now_ms: u64) -> (r: Option<KomsiDateTime>)
        ensures
            r == self.spec_now(now_ms),
    {
        match self.reference {
            None => None,
            Some((base_dt, base_ms)) => {
                let elapsed_secs = if now_ms >= base_ms {
                    (now_ms - base_ms) / 1000
                } else {
                    0
                };
                if elapsed_secs == 0 {
                    Some(base_dt)
                } else {
                    let mut current = base_dt;
                    add_seconds(&mut current, elapsed_secs);
                    Some(current)
                }
            },
        }
    }
}

} // verus!
