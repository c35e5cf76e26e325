//! The shared vehicle state: current speed, configured maximum speed, and
//! the two saturating distance counters.
//!
//! The stored speed is clamped to a safety ceiling before storage so that
//! the analog display hardware is never driven past its needle stop; the
//! distance counters saturate instead of wrapping.

use vstd::prelude::*;

verus! {

/// The safety ceiling for the stored speed, in km/h.
pub const SPEED_LIMIT_KMH: u32 = 125;

/// The process-wide vehicle state.
#[derive(Debug, Clone, Copy, PartialEq, Eq, Structural)]
pub struct VehicleState {
    pub actual_speed_kmh: u32,
    pub max_speed_kmh: u32,
    pub total_distance_m: u64,
    pub trip_distance_m: u64,
}

impl VehicleState {
    /// The stored speed never exceeds the safety ceiling.
    pub open spec fn wf(self) -> bool {
        self.actual_speed_kmh <= SPEED_LIMIT_KMH
    }

    /// The state at process start: everything zero.
    pub fn new() -> (s: VehicleState)
        ensures
            s == (VehicleState {
                actual_speed_kmh: 0,
                max_speed_kmh: 0,
                total_distance_m: 0,
                trip_distance_m: 0,
            }),
            s.wf(),
    {
        VehicleState { actual_speed_kmh: 0, max_speed_kmh: 0, total_distance_m: 0, trip_distance_m: 0 }
    }
}

/// Addition on `u64` that saturates at `u64::MAX` instead of wrapping.
pub open spec fn sat_add64(a: u64, b: u64) -> u64 {
    if a + b > u64::MAX {
        u64::MAX
    } else {
        (a + b) as u64
    }
}

/// Whole meters traveled in one second at the given speed, by integer
/// arithmetic: `speed_kmh * 10 / 36` (one km/h is 10/36 meters per second).
pub open spec fn spec_meters_per_second(speed_kmh: u32) -> u64 {
    ((speed_kmh * 10) / 36) as u64
}

/// The total after `n` one-second ticks that each add `m` meters,
/// saturating at `u64::MAX`.
pub open spec fn distance_after_ticks(d: u64, m: u64, n: nat) -> u64
    decreases n,
{
    if n == 0 {
        d
    } else {
        sat_add64(distance_after_ticks(d, m, (n - 1) as nat), m)
    }
}

/// One distance-accumulation tick: derive the meters traveled this second
/// from the current speed and add them to both distance counters,
/// saturating at `u64::MAX`.
pub fn calculate_distance_per_second(state: &mut VehicleState)
    ensures
        final(state).actual_speed_kmh == old(state).actual_speed_kmh,
        final(state).max_speed_kmh == old(state).max_speed_kmh,
        final(state).total_distance_m == sat_add64(
            old(state).total_distance_m,
            spec_meters_per_second(old(state).actual_speed_kmh),
        ),
        final(state).trip_distance_m == sat_add64(
            old(state).trip_distance_m,
            spec_meters_per_second(old(state).actual_speed_kmh),
        ),
        final(state).total_distance_m >= old(state).total_distance_m,
        final(state).trip_distance_m >= old(state).trip_distance_m,
{
    let meters_this_second = (state.actual_speed_kmh as u64 * 10) / 36;
    if meters_this_second > 0 {
        state.total_distance_m = state.total_distance_m.saturating_add(meters_this_second);
        state.trip_distance_m = state.trip_distance_m.saturating_add(meters_this_second);
    }
}

/// Repeated ticks at a constant speed increase a distance counter by the
/// same integer amount each tick: as long as the sum still fits in `u64`,
/// the counter after `n` ticks of `m` meters is exactly `d + n * m`, so
/// with `m > 0` each tick is a strict increase.
pub proof fn lemma_distance_accumulation(d: u64, m: u64, n: nat)
    requires
        d + n * m <= u64::MAX,
    ensures
        distance_after_ticks(d, m, n) == d + n * m,
    decreases n,
{
    if n > 0 {
        assert(((n - 1) as nat) * m <= n * m && ((n - 1) as nat) * m + m == n * m)
            by (nonlinear_arith)
            requires
                n >= 1,
        ;
        lemma_distance_accumulation(d, m, (n - 1) as nat);
    } else {
        assert(n * m == 0) by (nonlinear_arith)
            requires
                n == 0,
        ;
    }
}

/// A distance counter never decreases, and never wraps: one more tick can
/// only grow it (or leave it saturated at `u64::MAX`).
pub proof fn lemma_distance_never_decreases(d: u64, m: u64, n: nat)
    ensures
        distance_after_ticks(d, m, (n + 1) as nat) >= distance_after_ticks(d, m, n) >= d,
    decreases n,
{
    if n > 0 {
        lemma_distance_never_decreases(d, m, (n - 1) as nat);
    }
}

} // verus!
