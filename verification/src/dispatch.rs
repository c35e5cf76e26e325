//! The command dispatcher: applies one decoded KOMSI command to the vehicle
//! state store and the clock service.
//!
//! Speed commands clamp to the safety ceiling before storage; odometer
//! commands overwrite the total distance and reset the trip distance;
//! datetime commands replace the clock reference wholesale.  Every other
//! command kind is accepted and currently has no effect on the stores —
//! an extension point, not an oversight.

use vstd::prelude::*;

use crate::clock::Clock;
use crate::komsi::spec_from_parts;
use crate::komsi::KomsiError;
use crate::komsi::Command;
use crate::vehicle::VehicleState;
use crate::vehicle::SPEED_LIMIT_KMH;

verus! {

/// The effect of one command on the vehicle state and the clock, at the
/// given monotonic millisecond instant.
pub open spec fn spec_dispatch(cmd: Command, s: VehicleState, c: Clock, now_ms: u64) -> (
    VehicleState,
    Clock,
) {
    match cmd {
        Command::DateTime(dt) => (s, Clock { reference: Some((dt, now_ms)) }),
        Command::Speed(v) => (
            VehicleState {
                actual_speed_kmh: if v > SPEED_LIMIT_KMH {
                    SPEED_LIMIT_KMH
                } else {
                    v
                },
                ..s
            },
            c,
        ),
        Command::MaxSpeed(v) => (VehicleState { max_speed_kmh: v, ..s }, c),
        Command::Odometer(d) => (VehicleState { total_distance_m: d, trip_distance_m: 0, ..s }, c),
        _ => (s, c),
    }
}

/// Apply one decoded command to the stores.  The stored speed is clamped to
/// the safety ceiling, so a well-formed state stays well-formed.
pub fn dispatch_command(cmd: &Command, state: &mut VehicleState, clock: &mut Clock, now_ms: u64)
    ensures
        *final(state) == spec_dispatch(*cmd, *old(state), *old(clock), now_ms).0,
        *final(clock) == spec_dispatch(*cmd, *old(state), *old(clock), now_ms).1,
        old(state).wf() ==> final(state).wf(),
{
    match cmd {
        Command::DateTime(dt) => {
            clock.sync_system_time(*dt, now_ms);
        },
        Command::Speed(speed) => {
            let safe_speed = if *speed > SPEED_LIMIT_KMH {
                SPEED_LIMIT_KMH
            } else {
                *speed
            };
            state.actual_speed_kmh = safe_speed;
        },
        Command::MaxSpeed(speed) => {
            state.max_speed_kmh = *speed;
        },
        Command::Odometer(dist) => {
            state.total_distance_m = *dist;
            state.trip_distance_m = 0;
        },
        _ => {},
    }
}

/// Decode a command letter with its digit payload and apply the command to
/// the stores.  A decoding failure leaves both stores untouched; it is
/// reported by the caller and never halts parsing.
pub fn komsi_dispatch(
    cmd_char: char,
    digits: &[u8],
    state: &mut VehicleState,
    clock: &mut Clock,
    now_ms: u64,
) -> (r: Result<Command, KomsiError>)
    ensures
        r == spec_from_parts(cmd_char, digits@),
        r matches Ok(cmd) ==> {
            &&& *final(state) == spec_dispatch(cmd, *old(state), *old(clock), now_ms).0
            &&& *final(clock) == spec_dispatch(cmd, *old(state), *old(clock), now_ms).1
        },
        r is Err ==> *final(state) == *old(state) && *final(clock) == *old(clock),
        old(state).wf() ==> final(state).wf(),
{
    match Command::from_parts(cmd_char, digits) {
        Ok(cmd) => {
            dispatch_command(&cmd, state, clock, now_ms);
            Ok(cmd)
        },
        Err(e) => Err(e),
    }
}

} // verus!
