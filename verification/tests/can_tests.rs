use komsi2tacho::can::can_send_frame;
use komsi2tacho::can::id_pgn_and_source;
use komsi2tacho::can::send_acknowledgment_message;
use komsi2tacho::can::send_date_time_message;
use komsi2tacho::can::send_hr_distance_message;
use komsi2tacho::can::send_tachograph_message;
use komsi2tacho::can::BusAction;
use komsi2tacho::can::BusManager;
use komsi2tacho::can::BusMode;
use komsi2tacho::can::TxOutcome;
use komsi2tacho::can::ACKNOWLEDGMENT_ID;
use komsi2tacho::can::RESET_REQUEST_ID;
use komsi2tacho::clock::Clock;
use komsi2tacho::encoders::encode_acknowledgment;
use komsi2tacho::encoders::encode_hr_distance;
use komsi2tacho::encoders::encode_tachograph;
use komsi2tacho::encoders::encode_time_date;
use komsi2tacho::frame::CanFrame;
use komsi2tacho::komsi::KomsiDateTime;
use komsi2tacho::queue::usb_write;
use komsi2tacho::queue::usb_write_dynamic;
use komsi2tacho::queue::OutQueue;
use komsi2tacho::queue::StatusQueue;
use komsi2tacho::vehicle::VehicleState;

#[test]
fn tachograph_no_overspeed() {
    let fr = encode_tachograph(90, 100);
    assert_eq!(fr.id, 0x0CFE6CEE);
    // driver1 drive (3), driver2 n/a (7 << 3), motion on (1 << 6)
    assert_eq!(fr.data[0], 0x7B);
    // time states n/a (15), card present (1 << 4), overspeed off (0 << 6)
    assert_eq!(fr.data[1], 0x1F);
    // time states n/a (15), card absent (0 << 4), reserved (3 << 6)
    assert_eq!(fr.data[2], 0xCF);
    // no event, no handling info, performance ok, direction forward (1 << 6)
    assert_eq!(fr.data[3], 0x40);
    // shaft speed 90 * 1333 / 10 = 11997 rpm clamps to the slot maximum
    assert_eq!(&fr.data[4..6], &[0xFF, 0xFA]);
    // vehicle speed 90 km/h in 1/256 km/h units: 23040 little-endian
    assert_eq!(&fr.data[6..8], &[0x00, 0x5A]);
}

#[test]
fn tachograph_overspeed() {
    let fr = encode_tachograph(110, 100);
    // overspeed on: bit 6 of byte 2 set
    assert_eq!(fr.data[1], 0x5F);
    // vehicle speed 110 km/h: 28160 little-endian
    assert_eq!(&fr.data[6..8], &[0x00, 0x6E]);
}

#[test]
fn tachograph_standstill() {
    let fr = encode_tachograph(0, 100);
    // motion off: bits 6-7 of byte 1 are zero
    assert_eq!(fr.data[0], 0x3B);
    // both speed slots at zero
    assert_eq!(&fr.data[4..8], &[0x00, 0x00, 0x00, 0x00]);
}

#[test]
fn tachograph_shaft_speed_tracks_vehicle_speed() {
    let fr = encode_tachograph(30, 0);
    // 30 km/h * 133.3 imp = 3999 rpm, in 0.125 rpm units: 31992 little-endian
    assert_eq!(&fr.data[4..6], &[0xF8, 0x7C]);
    // nonzero shaft speed while the vehicle moves
    assert_ne!(&fr.data[4..6], &[0x00, 0x00]);
}

#[test]
fn hr_distance_bytes() {
    let fr = encode_hr_distance(5000, 1000);
    assert_eq!(fr.id, 0x18FEC1EE);
    // 5000 m in 5 m units: 1000 little-endian
    assert_eq!(&fr.data[0..4], &[0xE8, 0x03, 0x00, 0x00]);
    // 1000 m in 5 m units: 200
    assert_eq!(&fr.data[4..8], &[0xC8, 0x00, 0x00, 0x00]);
}

#[test]
fn hr_distance_truncates_to_32_bits() {
    let fr = encode_hr_distance(0x1_0000_0000 + 5000, 0);
    assert_eq!(&fr.data[0..4], &[0xE8, 0x03, 0x00, 0x00]);
}

#[test]
fn time_date_bytes() {
    let dt = KomsiDateTime {
        year: 2026,
        month: 2,
        day: 13,
        hour: 8,
        min: 2,
        sec: 5,
    };
    let fr = encode_time_date(&dt);
    assert_eq!(fr.id, 0x18FEE6EE);
    assert_eq!(fr.data, [20, 2, 8, 2, 52, 41, 125, 125]);
}

#[test]
fn acknowledgment_frame() {
    let fr = encode_acknowledgment();
    assert_eq!(fr.id, 0x1CE8FFEE);
    assert_eq!(fr.data, [0x00, 0xFF, 0xFF, 0xFF, 0xFF, 0x00, 0xDE, 0x00]);
}

#[test]
fn diagnostic_round_trip() {
    let manager = BusManager::new();
    let mut q = OutQueue::new();
    let acked = manager.on_inbound_frame(RESET_REQUEST_ID, &mut q);
    assert!(acked);
    assert_eq!(q.len(), 1);
    let fr = manager.next_outbound(&mut q).unwrap();
    assert_eq!(fr.id, ACKNOWLEDGMENT_ID);
    assert_eq!(fr.data, [0x00, 0xFF, 0xFF, 0xFF, 0xFF, 0x00, 0xDE, 0x00]);
    assert_eq!(q.len(), 0);
}

#[test]
fn inbound_id_decomposition() {
    let (pgn, source) = id_pgn_and_source(0x1CDEEE17);
    assert_eq!(pgn, 0xDEEE);
    assert_eq!(source, 0x17);
}

#[test]
fn unrelated_inbound_frame_is_ignored() {
    let manager = BusManager::new();
    let mut q = OutQueue::new();
    assert!(!manager.on_inbound_frame(0x18FEE6EE, &mut q));
    assert_eq!(q.len(), 0);
}

#[test]
fn bus_off_forces_reset_before_next_dequeue() {
    let mut manager = BusManager::new();
    let mut q = OutQueue::new();
    let mut status = StatusQueue::new();
    let fr = encode_acknowledgment();
    assert!(can_send_frame(&mut q, fr));
    assert!(can_send_frame(&mut q, fr));
    // the manager dequeues one frame and its transmit reports bus-off
    let _in_flight = manager.next_outbound(&mut q).unwrap();
    let action = manager.on_transmit_outcome(
        &TxOutcome::HardwareError { bus_off: true },
        &mut status,
    );
    assert_eq!(action, BusAction::ResetController);
    assert_eq!(manager.mode, BusMode::Resetting);
    // the queued frame behind the one in flight is still there
    assert_eq!(q.len(), 1);
    manager.on_reset_complete();
    assert_eq!(manager.mode, BusMode::Operational);
    assert!(manager.next_outbound(&mut q).is_some());
}

#[test]
fn timeout_is_treated_as_bus_off() {
    let mut manager = BusManager::new();
    let mut status = StatusQueue::new();
    let action = manager.on_transmit_outcome(&TxOutcome::Timeout, &mut status);
    assert_eq!(action, BusAction::ResetController);
    assert_eq!(manager.mode, BusMode::Resetting);
    assert_eq!(status.len(), 1);
}

#[test]
fn plain_hardware_error_does_not_reset() {
    let mut manager = BusManager::new();
    let mut status = StatusQueue::new();
    let action = manager.on_transmit_outcome(
        &TxOutcome::HardwareError { bus_off: false },
        &mut status,
    );
    assert_eq!(action, BusAction::Proceed);
    assert_eq!(manager.mode, BusMode::Operational);
    assert_eq!(status.len(), 1);
}

#[test]
fn successful_transmit_reports_nothing() {
    let mut manager = BusManager::new();
    let mut status = StatusQueue::new();
    let action = manager.on_transmit_outcome(&TxOutcome::Sent, &mut status);
    assert_eq!(action, BusAction::Proceed);
    assert_eq!(manager.mode, BusMode::Operational);
    assert_eq!(status.len(), 0);
}

#[test]
fn receive_error_pauses() {
    let manager = BusManager::new();
    let mut status = StatusQueue::new();
    let action = manager.on_receive_error(&mut status);
    assert_eq!(action, BusAction::Pause);
    assert_eq!(status.len(), 1);
}

#[test]
fn out_queue_is_fifo_and_bounded() {
    let mut q = OutQueue::new();
    for i in 0..16u32 {
        let fr = CanFrame {
            id: i,
            data: [0; 8],
        };
        assert!(can_send_frame(&mut q, fr));
    }
    assert!(!can_send_frame(
        &mut q,
        CanFrame {
            id: 99,
            data: [0; 8],
        }
    ));
    assert_eq!(q.len(), 16);
    for i in 0..16u32 {
        assert_eq!(q.receive().unwrap().id, i);
    }
    assert!(q.receive().is_none());
}

#[test]
fn status_queue_drops_on_full() {
    let mut status = StatusQueue::new();
    for _ in 0..8 {
        usb_write(&mut status, "line");
    }
    assert_eq!(status.len(), 8);
    usb_write_dynamic(&mut status, String::from("dropped"));
    assert_eq!(status.len(), 8);
}

#[test]
fn send_tachograph_message_queues_current_state() {
    let mut state = VehicleState::new();
    state.actual_speed_kmh = 90;
    state.max_speed_kmh = 100;
    let mut q = OutQueue::new();
    assert!(send_tachograph_message(&state, &mut q));
    let fr = q.receive().unwrap();
    assert_eq!(fr.id, 0x0CFE6CEE);
    assert_eq!(fr.data[1], 0x1F);
}

#[test]
fn send_hr_distance_message_queues_totals() {
    let mut state = VehicleState::new();
    state.total_distance_m = 5000;
    state.trip_distance_m = 1000;
    let mut q = OutQueue::new();
    assert!(send_hr_distance_message(&state, &mut q));
    let fr = q.receive().unwrap();
    assert_eq!(fr.id, 0x18FEC1EE);
    assert_eq!(&fr.data[0..4], &[0xE8, 0x03, 0x00, 0x00]);
}

#[test]
fn send_date_time_skips_before_first_sync() {
    let clock = Clock::new();
    let mut q = OutQueue::new();
    assert!(!send_date_time_message(&clock, 5_000, &mut q));
    assert_eq!(q.len(), 0);
}

#[test]
fn send_date_time_after_sync() {
    let mut clock = Clock::new();
    clock.sync_system_time(
        KomsiDateTime {
            year: 2026,
            month: 2,
            day: 13,
            hour: 8,
            min: 0,
            sec: 0,
        },
        0,
    );
    let mut q = OutQueue::new();
    assert!(send_date_time_message(&clock, 125_000, &mut q));
    let fr = q.receive().unwrap();
    assert_eq!(fr.id, 0x18FEE6EE);
    // 08:02:05 on 2026-02-13, zero UTC offset
    assert_eq!(fr.data, [20, 2, 8, 2, 52, 41, 125, 125]);
}

#[test]
fn send_acknowledgment_message_queues_ack() {
    let mut q = OutQueue::new();
    assert!(send_acknowledgment_message(&mut q));
    let fr = q.receive().unwrap();
    assert_eq!(fr.id, 0x1CE8FFEE);
}
