//! The J1939 message encoders: pure functions from state snapshots to CAN
//! frames for the four messages this bridge emits — Tachograph,
//! High-Resolution Vehicle Distance, Time/Date, and Acknowledgment.
//!
//! Identifier assembly and PDU serialization are done by the `j1939` crate
//! behind trusted wrappers; each wrapper's contract states byte for byte
//! what the crate's encoder produces, except the four-byte distance slot,
//! whose exact value involves the crate's floating-point scaling and is
//! therefore only named (`distance5m_le`).

use vstd::prelude::*;

use crate::frame::CanFrame;
use crate::komsi::KomsiDateTime;
use crate::vehicle::SPEED_LIMIT_KMH;

use j1939::spn::AcknowledgmentType;
use j1939::spn::DriverTimeRelatedStates;
use j1939::spn::DriverWorkingState;
use j1939::spn::TachographMessage;

verus! {

/// The fixed source address of all outbound traffic.
pub const SOURCE_ADDRESS: u8 = 0xee;

/// Parameter group number of the Tachograph message.
pub const PGN_TACHOGRAPH: u32 = 65132;

/// Parameter group number of the High-Resolution Vehicle Distance message.
pub const PGN_HIGH_RES_DISTANCE: u32 = 65217;

/// Parameter group number of the Time/Date message.
pub const PGN_TIME_DATE: u32 = 65254;

/// Parameter group number of the Acknowledgment message.
pub const PGN_ACKNOWLEDGMENT: u32 = 59392;

/// Parameter group number of the Reset request that is acknowledged.
pub const PGN_RESET: u32 = 56832;

/// Control byte of a positive acknowledgment.
pub const ACK_CONTROL_POSITIVE: u8 = 0;

/// Driver working state code for "drive".
pub const DRIVER_WORKING_STATE_DRIVE: u8 = 3;

/// A 29-bit J1939 identifier assembled from priority, parameter group
/// number and source address; a destination-specific (PDU1) group carries
/// the destination address in its low identifier byte.
pub open spec fn spec_j1939_id(pgn: u32, priority: u8, da: u8, sa: u8) -> u32 {
    let base = priority * 0x400_0000 + pgn * 0x100 + sa;
    if (pgn / 0x100) % 0x100 < 0xf0 {
        (base + da * 0x100) as u32
    } else {
        base as u32
    }
}

/// Relies on `j1939::IdBuilder` (with `j1939::PGN::from`): `build` places
/// the priority at bit 26, the parameter group number at bit 8 and the
/// source address at bit 0, and merges the destination address into bits
/// 8-15 for a destination-specific (PDU1) group, whose own low byte is
/// zero.
#[verifier::external_body]
fn build_j1939_id(pgn: u32, priority: u8, da: u8, sa: u8) -> (r: u32)
    requires
        priority <= 7,
        pgn <= 0x3ffff,
        (pgn / 0x100) % 0x100 < 0xf0 ==> pgn % 0x100 == 0,
    ensures
        r == spec_j1939_id(pgn, priority, da, sa),
{
    j1939::IdBuilder::from_pgn(j1939::PGN::from(pgn)).priority(priority).da(da).sa(sa).build().as_raw()
}

/// The fields of a Tachograph message, as plain values: a state code is the
/// 3- or 4-bit J1939 code, a flag is a two-state status, and `None` is the
/// not-available pattern of the respective field.
#[derive(Debug, Clone, Copy, PartialEq, Eq, Structural)]
pub struct TachographFields {
    pub driver1_working_state: Option<u8>,
    pub driver2_working_state: Option<u8>,
    pub vehicle_motion: Option<bool>,
    pub driver1_time_states: Option<u8>,
    pub driver1_card_present: Option<bool>,
    pub vehicle_overspeed: Option<bool>,
    pub driver2_time_states: Option<u8>,
    pub driver2_card_present: Option<bool>,
    pub system_event: Option<bool>,
    pub handling_information: Option<bool>,
    pub tachograph_performance: Option<bool>,
    pub direction_indicator: Option<bool>,
    pub tachograph_output_shaft_speed: Option<u16>,
    pub tachograph_vehicle_speed: Option<u16>,
}

impl TachographFields {
    /// Every present state code is one the wire format encodes losslessly:
    /// working states are 3-bit codes up to 3, time-related states are the
    /// codes up to 6 or the "other" code 13.
    pub open spec fn wf(self) -> bool {
        &&& match self.driver1_working_state {
            Some(c) => c <= 3,
            None => true,
        }
        &&& match self.driver2_working_state {
            Some(c) => c <= 3,
            None => true,
        }
        &&& match self.driver1_time_states {
            Some(c) => c <= 6 || c == 13,
            None => true,
        }
        &&& match self.driver2_time_states {
            Some(c) => c <= 6 || c == 13,
            None => true,
        }
    }
}

/// The two bits of a two-state status: 0 off, 1 on, 3 not available.
pub open spec fn spec_status_bits(v: Option<bool>) -> u8 {
    match v {
        Some(false) => 0,
        Some(true) => 1,
        None => 3,
    }
}

/// The three bits of a driver working state; 7 is not available.
pub open spec fn spec_working_state_bits(v: Option<u8>) -> u8 {
    match v {
        Some(c) => c,
        None => 7,
    }
}

/// The four bits of a driver time-related state; 15 is not available.
pub open spec fn spec_time_states_bits(v: Option<u8>) -> u8 {
    match v {
        Some(c) => c,
        None => 15,
    }
}

/// A 16-bit value in little-endian byte order.
pub open spec fn spec_u16_le(v: u16) -> Seq<u8> {
    seq![(v % 0x100) as u8, (v / 0x100) as u8]
}

/// The two-byte output shaft speed slot (0.125 rpm per bit): values up to
/// 8031 rpm are scaled by eight, larger values clamp to the slot maximum,
/// and an absent value is the not-available pattern.
pub open spec fn spec_shaft_speed_slot(v: Option<u16>) -> Seq<u8> {
    match v {
        Some(r) => if r <= 8031 {
            spec_u16_le((r * 8) as u16)
        } else {
            spec_u16_le(64255)
        },
        None => seq![0xffu8, 0xffu8],
    }
}

/// The two-byte vehicle speed slot (1/256 km/h per bit): values up to 250
/// km/h are scaled by 256, larger values clamp to the slot maximum, and an
/// absent value is the not-available pattern.
pub open spec fn spec_vehicle_speed_slot(v: Option<u16>) -> Seq<u8> {
    match v {
        Some(s) => if s <= 250 {
            spec_u16_le((s * 256) as u16)
        } else {
            spec_u16_le(64255)
        },
        None => seq![0xffu8, 0xffu8],
    }
}

/// The eight PDU bytes of a Tachograph message: four packed status bytes
/// followed by the output shaft speed and vehicle speed slots.
pub open spec fn spec_tachograph_pdu(f: TachographFields) -> Seq<u8> {
    seq![
        (spec_working_state_bits(f.driver1_working_state) + spec_working_state_bits(
            f.driver2_working_state,
        ) * 8 + spec_status_bits(f.vehicle_motion) * 64) as u8,
        (spec_time_states_bits(f.driver1_time_states) + spec_status_bits(f.driver1_card_present)
            * 16 + spec_status_bits(f.vehicle_overspeed) * 64) as u8,
        (spec_time_states_bits(f.driver2_time_states) + spec_status_bits(f.driver2_card_present)
            * 16 + 192) as u8,
        (spec_status_bits(f.system_event) + spec_status_bits(f.handling_information) * 4
            + spec_status_bits(f.tachograph_performance) * 16 + spec_status_bits(
            f.direction_indicator,
        ) * 64) as u8,
    ] + spec_shaft_speed_slot(f.tachograph_output_shaft_speed) + spec_vehicle_speed_slot(
        f.tachograph_vehicle_speed,
    )
}

/// Relies on `j1939::spn::TachographMessage::to_pdu`: packs the status
/// fields into the first four bytes (the reserved pair of byte 3 set to
/// not-available) and the two speed slots into bytes 5-8, exactly as
/// `spec_tachograph_pdu` states.
#[verifier::external_body]
fn tachograph_to_pdu(f: &TachographFields) -> (r: [u8; 8])
    requires
        f.wf(),
    ensures
        r@ == spec_tachograph_pdu(*f),
{
    TachographMessage {
        driver1_working_state: f.driver1_working_state.and_then(DriverWorkingState::from_value),
        driver2_working_state: f.driver2_working_state.and_then(DriverWorkingState::from_value),
        driver1_time_states: f.driver1_time_states.and_then(DriverTimeRelatedStates::from_value),
        driver2_time_states: f.driver2_time_states.and_then(DriverTimeRelatedStates::from_value),
        vehicle_motion: f.vehicle_motion,
        driver1_card_present: f.driver1_card_present,
        vehicle_overspeed: f.vehicle_overspeed,
        driver2_card_present: f.driver2_card_present,
        system_event: f.system_event,
        handling_information: f.handling_information,
        tachograph_performance: f.tachograph_performance,
        direction_indicator: f.direction_indicator,
        tachograph_output_shaft_speed: f.tachograph_output_shaft_speed,
        tachograph_vehicle_speed: f.tachograph_vehicle_speed }.to_pdu()
}

/// The Tachograph fields this bridge reports for a state snapshot: driver
/// one is driving with card present, the vehicle moves exactly when the
/// speed is nonzero, overspeed holds exactly when a maximum is set and
/// exceeded, direction is forward, and the output shaft speed simulates an
/// 8000 imp/km transducer (133.3 pulses per km/h, by integer arithmetic
/// `speed * 1333 / 10`), so it is nonzero whenever the vehicle moves.
pub open spec fn spec_tachograph_fields(speed_kmh: u32, max_speed_kmh: u32) -> TachographFields {
    TachographFields {
        driver1_working_state: Some(DRIVER_WORKING_STATE_DRIVE),
        driver2_working_state: None,
        vehicle_motion: Some(speed_kmh > 0),
        driver1_time_states: None,
        driver1_card_present: Some(true),
        vehicle_overspeed: Some(max_speed_kmh > 0 && speed_kmh > max_speed_kmh),
        driver2_time_states: None,
        driver2_card_present: Some(false),
        system_event: Some(false),
        handling_information: Some(false),
        tachograph_performance: Some(false),
        direction_indicator: Some(true),
        tachograph_output_shaft_speed: Some(((speed_kmh * 1333) / 10) as u16),
        tachograph_vehicle_speed: Some(speed_kmh as u16),
    }
}

/// Build the Tachograph message fields for a state snapshot.
pub fn tachograph_fields(speed_kmh: u32, max_speed_kmh: u32) -> (f: TachographFields)
    requires
        speed_kmh <= SPEED_LIMIT_KMH,
    ensures
        f == spec_tachograph_fields(speed_kmh, max_speed_kmh),
        f.wf(),
        f.vehicle_overspeed == Some(max_speed_kmh > 0 && speed_kmh > max_speed_kmh),
        f.tachograph_vehicle_speed == Some(speed_kmh as u16),
        f.vehicle_motion == Some(speed_kmh > 0),
        speed_kmh > 0 ==> (f.tachograph_output_shaft_speed matches Some(r) && r > 0),
{
    let output_shaft_speed = ((speed_kmh * 1333) / 10) as u16;
    TachographFields {
        driver1_working_state: Some(DRIVER_WORKING_STATE_DRIVE),
        driver2_working_state: None,
        vehicle_motion: Some(speed_kmh > 0),
        driver1_time_states: None,
        driver1_card_present: Some(true),
        vehicle_overspeed: Some(max_speed_kmh > 0 && speed_kmh > max_speed_kmh),
        driver2_time_states: None,
        driver2_card_present: Some(false),
        system_event: Some(false),
        handling_information: Some(false),
        tachograph_performance: Some(false),
        direction_indicator: Some(true),
        tachograph_output_shaft_speed: Some(output_shaft_speed),
        tachograph_vehicle_speed: Some(speed_kmh as u16),
    }
}

/// Encode the Tachograph message (priority 3) for a state snapshot.
pub fn encode_tachograph(speed_kmh: u32, max_speed_kmh: u32) -> (fr: CanFrame)
    requires
        speed_kmh <= SPEED_LIMIT_KMH,
    ensures
        fr.id == 0x0cfe6cee,
        fr.data@ == spec_tachograph_pdu(spec_tachograph_fields(speed_kmh, max_speed_kmh)),
        fr.wf(),
{
    let id = build_j1939_id(PGN_TACHOGRAPH, 3, 0, SOURCE_ADDRESS);
    let f = tachograph_fields(speed_kmh, max_speed_kmh);
    let data = tachograph_to_pdu(&f);
    CanFrame { id, data }
}

/// What the four-byte high-resolution distance slot (5 m per bit) holds
/// for a meter count.  The exact bytes go through the crate's
/// floating-point scaling, so they are named rather than restated; the
/// slot is always four bytes.
pub uninterp spec fn distance5m_le(meters: u32) -> Seq<u8>;

/// Relies on `j1939::spn::HighResolutionVehicleDistanceMessage::to_pdu`:
/// bytes 1-4 hold the total and bytes 5-8 the trip distance, each in the
/// four-byte 5 m/bit slot written `distance5m_le`.
#[verifier::external_body]
fn hr_distance_to_pdu(total_m: u32, trip_m: u32) -> (r: [u8; 8])
    ensures
        r@.len() == 8,
        r@.subrange(0, 4) == distance5m_le(total_m),
        r@.subrange(4, 8) == distance5m_le(trip_m),
{
    j1939::spn::HighResolutionVehicleDistanceMessage {
        total_vehicle_distance_m: Some(total_m),
        trip_distance_m: Some(trip_m),
    }.to_pdu()
}

/// Encode the High-Resolution Vehicle Distance message (priority 6) for
/// the accumulated totals, truncated to whole 32-bit meter counts.
pub fn encode_hr_distance(total_distance_m: u64, trip_distance_m: u64) -> (fr: CanFrame)
    ensures
        fr.id == 0x18fec1ee,
        fr.data@ == distance5m_le((total_distance_m % 0x1_0000_0000) as u32) + distance5m_le(
            (trip_distance_m % 0x1_0000_0000) as u32,
        ),
        fr.wf(),
{
    let id = build_j1939_id(PGN_HIGH_RES_DISTANCE, 6, 0, SOURCE_ADDRESS);
    let total = (total_distance_m % 0x1_0000_0000) as u32;
    let trip = (trip_distance_m % 0x1_0000_0000) as u32;
    let data = hr_distance_to_pdu(total, trip);
    proof {
        assert(data@ =~= data@.subrange(0, 4) + data@.subrange(4, 8));
    }
    CanFrame { id, data }
}

/// The eight PDU bytes of a Time/Date message with zero UTC offset:
/// seconds and day scaled by four, year offset from 1985, each wrapped to
/// its byte, and both offset bytes at 125 (the encoding of offset zero).
pub open spec fn spec_time_date_pdu(dt: KomsiDateTime) -> Seq<u8> {
    seq![
        ((dt.sec * 4) % 0x100) as u8,
        dt.min,
        dt.hour,
        dt.month,
        ((dt.day * 4) % 0x100) as u8,
        ((dt.year - 1985) % 0x100) as u8,
        125u8,
        125u8,
    ]
}

/// Relies on `j1939::spn::TimeDate::to_pdu`: byte 1 is seconds scaled by
/// four, bytes 2-4 are minute, hour and month unscaled, byte 5 is the day
/// scaled by four, byte 6 the year offset from 1985 (each truncated to its
/// byte), and bytes 7-8 the UTC minute and hour offsets, offset by 125.
#[verifier::external_body]
fn time_date_to_pdu(
    year: u16,
    month: u8,
    day: u8,
    hour: u8,
    min: u8,
    sec: u8,
    minute_offset: i8,
    hour_offset: i8,
) -> (r: [u8; 8])
    requires
        -125 <= minute_offset <= 125,
        -125 <= hour_offset <= 125,
    ensures
        r@ == seq![
            ((sec * 4) % 0x100) as u8,
            min,
            hour,
            month,
            ((day * 4) % 0x100) as u8,
            ((year - 1985) % 0x100) as u8,
            (minute_offset + 125) as u8,
            (hour_offset + 125) as u8,
        ],
{
    j1939::spn::TimeDate {
        year: year as i32,
        month: month as u32,
        day: day as u32,
        hour: hour as u32,
        minute: min as u32,
        second: sec as u32,
        local_minute_offset: Some(minute_offset),
        local_hour_offset: Some(hour_offset),
    }.to_pdu()
}

/// Encode the Time/Date message (default priority 6) for a simulated
/// datetime, with zero UTC offset.
pub fn encode_time_date(dt: &KomsiDateTime) -> (fr: CanFrame)
    ensures
        fr.id == 0x18fee6ee,
        fr.data@ == spec_time_date_pdu(*dt),
        fr.wf(),
{
    let id = build_j1939_id(PGN_TIME_DATE, 6, 0, SOURCE_ADDRESS);
    let data = time_date_to_pdu(dt.year, dt.month, dt.day, dt.hour, dt.min, dt.sec, 0, 0);
    CanFrame { id, data }
}

/// Relies on `j1939::spn::AcknowledgmentMessage::to_pdu` (with
/// `j1939::PGN::from` and `j1939::PGN::to_le_bytes`): the control byte,
/// the group function value, three reserved bytes of 0xff, then the
/// acknowledged parameter group number in little-endian order.
#[verifier::external_body]
fn acknowledgment_to_pdu(control: u8, group_function_value: u8, pgn: u32) -> (r: [u8; 8])
    requires
        control <= 3,
        pgn <= 0x3ffff,
    ensures
        r@ == seq![
            control,
            group_function_value,
            0xffu8,
            0xffu8,
            0xffu8,
            (pgn % 0x100) as u8,
            ((pgn / 0x100) % 0x100) as u8,
            ((pgn / 0x10000) % 0x100) as u8,
        ],
{
    j1939::spn::AcknowledgmentMessage {
        control_byte: AcknowledgmentType::from_value(control),
        group_function_value,
        pgn: j1939::PGN::from(pgn),
    }.to_pdu()
}

/// Encode the positive Acknowledgment of the diagnostic Reset request
/// (priority 7, broadcast destination).
pub fn encode_acknowledgment() -> (fr: CanFrame)
    ensures
        fr.id == 0x1ce8ffee,
        fr.data@ == seq![0u8, 0xffu8, 0xffu8, 0xffu8, 0xffu8, 0x00u8, 0xdeu8, 0x00u8],
        fr.wf(),
{
    let id = build_j1939_id(PGN_ACKNOWLEDGMENT, 7, 0xff, SOURCE_ADDRESS);
    let data = acknowledgment_to_pdu(ACK_CONTROL_POSITIVE, 0xff, PGN_RESET);
    CanFrame { id, data }
}

} // verus!
