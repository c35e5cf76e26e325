use komsi2tacho::clock::add_seconds;
use komsi2tacho::clock::Clock;
use komsi2tacho::dispatch::dispatch_command;
use komsi2tacho::dispatch::komsi_dispatch;
use komsi2tacho::komsi::Command;
use komsi2tacho::komsi::KomsiDateTime;
use komsi2tacho::vehicle::calculate_distance_per_second;
use komsi2tacho::vehicle::VehicleState;

fn zero_state() -> VehicleState {
    VehicleState::new()
}

#[test]
fn speed_dispatch_clamps_to_ceiling() {
    let mut state = zero_state();
    let mut clock = Clock::new();
    dispatch_command(&Command::Speed(200), &mut state, &mut clock, 0);
    assert_eq!(state.actual_speed_kmh, 125);
    dispatch_command(&Command::Speed(80), &mut state, &mut clock, 0);
    assert_eq!(state.actual_speed_kmh, 80);
}

#[test]
fn max_speed_dispatch_is_not_clamped() {
    let mut state = zero_state();
    let mut clock = Clock::new();
    dispatch_command(&Command::MaxSpeed(5000), &mut state, &mut clock, 0);
    assert_eq!(state.max_speed_kmh, 5000);
}

#[test]
fn odometer_dispatch_resets_trip() {
    let mut state = zero_state();
    let mut clock = Clock::new();
    dispatch_command(&Command::Speed(90), &mut state, &mut clock, 0);
    calculate_distance_per_second(&mut state);
    calculate_distance_per_second(&mut state);
    assert!(state.trip_distance_m > 0);
    dispatch_command(&Command::Odometer(5000), &mut state, &mut clock, 0);
    assert_eq!(state.total_distance_m, 5000);
    assert_eq!(state.trip_distance_m, 0);
}

#[test]
fn other_commands_have_no_effect() {
    let mut state = zero_state();
    let mut clock = Clock::new();
    dispatch_command(&Command::RPM(3000), &mut state, &mut clock, 0);
    dispatch_command(&Command::Ignition(true), &mut state, &mut clock, 0);
    dispatch_command(&Command::Water(70), &mut state, &mut clock, 0);
    assert_eq!(state, zero_state());
    assert!(clock.reference.is_none());
}

#[test]
fn distance_ticks_add_constant_amount() {
    let mut state = zero_state();
    state.actual_speed_kmh = 90;
    let per_tick = 90 * 10 / 36;
    assert_eq!(per_tick, 25);
    for i in 1..=4u64 {
        calculate_distance_per_second(&mut state);
        assert_eq!(state.total_distance_m, i * per_tick);
        assert_eq!(state.trip_distance_m, i * per_tick);
    }
}

#[test]
fn distance_tick_at_walking_speed_adds_nothing() {
    let mut state = zero_state();
    state.actual_speed_kmh = 3;
    calculate_distance_per_second(&mut state);
    assert_eq!(state.total_distance_m, 0);
}

#[test]
fn distance_saturates_instead_of_wrapping() {
    let mut state = zero_state();
    state.actual_speed_kmh = 90;
    state.total_distance_m = u64::MAX - 10;
    state.trip_distance_m = u64::MAX;
    calculate_distance_per_second(&mut state);
    assert_eq!(state.total_distance_m, u64::MAX);
    assert_eq!(state.trip_distance_m, u64::MAX);
    calculate_distance_per_second(&mut state);
    assert_eq!(state.total_distance_m, u64::MAX);
}

#[test]
fn datetime_dispatch_syncs_clock() {
    let mut state = zero_state();
    let mut clock = Clock::new();
    let r = komsi_dispatch('r', b"20260213080000", &mut state, &mut clock, 7_000);
    assert!(r.is_ok());
    let dt = KomsiDateTime {
        year: 2026,
        month: 2,
        day: 13,
        hour: 8,
        min: 0,
        sec: 0,
    };
    assert_eq!(clock.reference, Some((dt, 7_000)));
    assert_eq!(clock.get_current_time_for_j1939(7_500), Some(dt));
}

#[test]
fn clock_unsynced_returns_none() {
    let clock = Clock::new();
    assert_eq!(clock.get_current_time_for_j1939(123_456), None);
}

#[test]
fn clock_advance_two_minutes_five_seconds() {
    let mut clock = Clock::new();
    let dt = KomsiDateTime {
        year: 2026,
        month: 2,
        day: 13,
        hour: 8,
        min: 0,
        sec: 0,
    };
    clock.sync_system_time(dt, 1_000);
    let now = clock.get_current_time_for_j1939(1_000 + 125_000).unwrap();
    assert_eq!(
        now,
        KomsiDateTime {
            year: 2026,
            month: 2,
            day: 13,
            hour: 8,
            min: 2,
            sec: 5,
        }
    );
}

#[test]
fn clock_resync_replaces_reference() {
    let mut clock = Clock::new();
    let dt1 = KomsiDateTime {
        year: 2026,
        month: 2,
        day: 13,
        hour: 8,
        min: 0,
        sec: 0,
    };
    let dt2 = KomsiDateTime {
        year: 2027,
        month: 6,
        day: 1,
        hour: 12,
        min: 30,
        sec: 0,
    };
    clock.sync_system_time(dt1, 0);
    clock.sync_system_time(dt2, 50_000);
    assert_eq!(clock.get_current_time_for_j1939(51_000).unwrap().year, 2027);
}

#[test]
fn add_seconds_carries_through_midnight() {
    let mut dt = KomsiDateTime {
        year: 2026,
        month: 2,
        day: 13,
        hour: 23,
        min: 59,
        sec: 59,
    };
    add_seconds(&mut dt, 2);
    assert_eq!(
        dt,
        KomsiDateTime {
            year: 2026,
            month: 2,
            day: 14,
            hour: 0,
            min: 0,
            sec: 1,
        }
    );
}

#[test]
fn add_seconds_day_field_wraps_at_byte() {
    let mut dt = KomsiDateTime {
        year: 2026,
        month: 2,
        day: 255,
        hour: 0,
        min: 0,
        sec: 0,
    };
    add_seconds(&mut dt, 86_400);
    assert_eq!(dt.day, 0);
    assert_eq!(dt.month, 2);
}
