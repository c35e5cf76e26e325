//! The KOMSI command vocabulary: typed commands, their decoding errors, and
//! the decimal decoding of a command's digit payload.
//!
//! A KOMSI command on the wire is a single letter followed by ASCII digits.
//! `Command::from_parts` maps a letter and its digit payload to the typed
//! command; the digit payload decodes as an unsigned decimal that saturates
//! at `u64::MAX`, and an empty payload decodes as 0.

use vstd::prelude::*;

verus! {

/// A failure while decoding a KOMSI command.
#[derive(Debug, Clone, Copy, PartialEq, Eq, Structural)]
pub enum KomsiError {
    UsbReadError,
    InvalidCommand(char),
    InvalidValue,
    InvalidDateTime,
}

/// A wall-clock date and time as carried by the KOMSI datetime command.
#[derive(Debug, Clone, Copy, PartialEq, Eq, Structural)]
pub struct KomsiDateTime {
    pub year: u16,
    pub month: u8,
    pub day: u8,
    pub hour: u8,
    pub min: u8,
    pub sec: u8,
}

/// A decoded KOMSI command.  The comment after each variant is its letter.
#[derive(Debug, Clone, Copy, PartialEq, Eq, Structural)]
pub enum Command {
    Ignition(bool),           // A
    Engine(bool),             // B
    PassengerDoorsOpen(bool), // C
    Indicator(u8),            // D
    FixingBrake(bool),        // E
    WarningLights(bool),      // F
    MainLights(bool),         // G
    FrontDoor(bool),          // H
    SecondDoor(bool),         // I
    ThirdDoor(bool),          // J
    StopRequest(bool),        // K
    StopBrake(bool),          // L
    HighBeam(bool),           // M
    BatteryLight(bool),       // N
    SimulatorType(u8),        // O
    DoorEnable(bool),         // P
    Odometer(u64),            // o
    DateTime(KomsiDateTime),  // r
    MaxSpeed(u32),            // s
    RPM(u32),                 // t
    Pressure(u32),            // u
    Temperature(u32),         // v
    Oil(u32),                 // w
    Fuel(u8),                 // x
    Speed(u32),               // y
    Water(u32),               // z
}

/// The byte is an ASCII decimal digit.
pub open spec fn is_digit_byte(b: u8) -> bool {
    0x30 <= b <= 0x39
}

/// Every byte of the sequence is an ASCII decimal digit.
pub open spec fn all_digits(s: Seq<u8>) -> bool {
    forall|i: int| 0 <= i < s.len() ==> is_digit_byte(s[i])
}

/// The unsigned decimal value of a digit sequence, without saturation.
/// Meaningful only when `all_digits(s)` holds.
pub open spec fn dec_val(s: Seq<u8>) -> int
    decreases s.len(),
{
    if s.len() == 0 {
        0
    } else {
        dec_val(s.drop_last()) * 10 + (s.last() - 0x30)
    }
}

/// The unsigned decimal value of a digit sequence, saturating at `u64::MAX`
/// after each appended digit.  Meaningful only when `all_digits(s)` holds.
pub open spec fn dec_sat(s: Seq<u8>) -> u64
    decreases s.len(),
{
    if s.len() == 0 {
        0u64
    } else {
        let m = if dec_sat(s.drop_last()) * 10 > u64::MAX {
            u64::MAX as int
        } else {
            dec_sat(s.drop_last()) * 10
        };
        let v = m + (s.last() - 0x30);
        if v > u64::MAX {
            u64::MAX
        } else {
            v as u64
        }
    }
}

/// The decimal value of a digit sequence is never negative.
pub proof fn lemma_dec_val_nonneg(s: Seq<u8>)
    requires
        all_digits(s),
    ensures
        dec_val(s) >= 0,
    decreases s.len(),
{
    if s.len() > 0 {
        assert(all_digits(s.drop_last()));
        lemma_dec_val_nonneg(s.drop_last());
    }
}

/// A decimal prefix of a digit sequence never exceeds the whole value.
pub proof fn lemma_dec_val_prefix_le(s: Seq<u8>, i: int)
    requires
        all_digits(s),
        0 <= i <= s.len(),
    ensures
        0 <= dec_val(s.take(i)) <= dec_val(s),
    decreases s.len() - i,
{
    assert(all_digits(s.take(i)));
    lemma_dec_val_nonneg(s.take(i));
    if i == s.len() {
        assert(s.take(i) =~= s);
    } else {
        lemma_dec_val_prefix_le(s, i + 1);
        assert(s.take(i + 1).drop_last() =~= s.take(i));
    }
}

/// Ten to the power `n`.
pub open spec fn pow10(n: nat) -> int
    decreases n,
{
    if n == 0 {
        1
    } else {
        10 * pow10((n - 1) as nat)
    }
}

/// A sequence of `n` decimal digits denotes a value below ten to the `n`.
pub proof fn lemma_dec_val_upper(s: Seq<u8>)
    requires
        all_digits(s),
    ensures
        dec_val(s) < pow10(s.len()),
    decreases s.len(),
{
    if s.len() > 0 {
        assert(all_digits(s.drop_last()));
        lemma_dec_val_upper(s.drop_last());
    }
}

/// Decode a digit payload as an unsigned decimal, saturating at `u64::MAX`.
/// Any byte that is not an ASCII digit is rejected.
pub fn parse_u64(digits: &[u8]) -> (r: Result<u64, KomsiError>)
    ensures
        all_digits(digits@) ==> r == Ok::<u64, KomsiError>(dec_sat(digits@)),
        !all_digits(digits@) ==> r == Err::<u64, KomsiError>(KomsiError::InvalidValue),
{
    let mut res: u64 = 0;
    let mut i: usize = 0;
    while i < digits.len()
        invariant
            0 <= i <= digits@.len(),
            all_digits(digits@.take(i as int)),
            res == dec_sat(digits@.take(i as int)),
        decreases digits@.len() - i,
    {
        let d = digits[i];
        if d < 0x30 || d > 0x39 {
            return Err(KomsiError::InvalidValue);
        }
        let digit = (d - 0x30) as u64;
        let m = match res.checked_mul(10) {
            Some(m) => m,
            None => u64::MAX,
        };
        res = m.saturating_add(digit);
        proof {
            assert(digits@.take(i + 1).drop_last() =~= digits@.take(i as int));
        }
        i = i + 1;
    }
    proof {
        assert(digits@.take(digits@.len() as int) =~= digits@);
    }
    Ok(res)
}

/// Decode an at-most-three-digit payload as a `u8`, rejecting any byte that
/// is not an ASCII digit and any value above `u8::MAX`.
pub fn parse_slice_u8(slice: &[u8]) -> (r: Result<u8, KomsiError>)
    ensures
        all_digits(slice@) && dec_val(slice@) <= u8::MAX ==> r == Ok::<u8, KomsiError>(
            dec_val(slice@) as u8,
        ),
        !(all_digits(slice@) && dec_val(slice@) <= u8::MAX) ==> r == Err::<u8, KomsiError>(
            KomsiError::InvalidValue,
        ),
{
    let mut res: u8 = 0;
    let mut i: usize = 0;
    while i < slice.len()
        invariant
            0 <= i <= slice@.len(),
            all_digits(slice@.take(i as int)),
            res == dec_val(slice@.take(i as int)),
        decreases slice@.len() - i,
    {
        let d = slice[i];
        if d < 0x30 || d > 0x39 {
            return Err(KomsiError::InvalidValue);
        }
        let digit = d - 0x30;
        proof {
            assert(slice@.take(i + 1).drop_last() =~= slice@.take(i as int));
            if all_digits(slice@) {
                lemma_dec_val_prefix_le(slice@, i + 1);
            }
        }
        res = match res.checked_mul(10) {
            Some(m) => m,
            None => {
                return Err(KomsiError::InvalidValue);
            },
        };
        res = match res.checked_add(digit) {
            Some(v) => v,
            None => {
                return Err(KomsiError::InvalidValue);
            },
        };
        i = i + 1;
    }
    proof {
        assert(slice@.take(slice@.len() as int) =~= slice@);
    }
    Ok(res)
}

/// Decode an at-most-five-digit payload as a `u16`, rejecting any byte that
/// is not an ASCII digit and any value above `u16::MAX`.
pub fn parse_slice_u16(slice: &[u8]) -> (r: Result<u16, KomsiError>)
    ensures
        all_digits(slice@) && dec_val(slice@) <= u16::MAX ==> r == Ok::<u16, KomsiError>(
            dec_val(slice@) as u16,
        ),
        !(all_digits(slice@) && dec_val(slice@) <= u16::MAX) ==> r == Err::<u16, KomsiError>(
            KomsiError::InvalidValue,
        ),
{
    let mut res: u16 = 0;
    let mut i: usize = 0;
    while i < slice.len()
        invariant
            0 <= i <= slice@.len(),
            all_digits(slice@.take(i as int)),
            res == dec_val(slice@.take(i as int)),
        decreases slice@.len() - i,
    {
        let d = slice[i];
        if d < 0x30 || d > 0x39 {
            return Err(KomsiError::InvalidValue);
        }
        let digit = (d - 0x30) as u16;
        proof {
            assert(slice@.take(i + 1).drop_last() =~= slice@.take(i as int));
            if all_digits(slice@) {
                lemma_dec_val_prefix_le(slice@, i + 1);
            }
        }
        res = match res.checked_mul(10) {
            Some(m) => m,
            None => {
                return Err(KomsiError::InvalidValue);
            },
        };
        res = match res.checked_add(digit) {
            Some(v) => v,
            None => {
                return Err(KomsiError::InvalidValue);
            },
        };
        i = i + 1;
    }
    proof {
        assert(slice@.take(slice@.len() as int) =~= slice@);
    }
    Ok(res)
}

/// The date and time denoted by exactly fourteen digits `YYYYMMDDHHMMSS`.
pub open spec fn spec_datetime_fields(s: Seq<u8>) -> KomsiDateTime {
    KomsiDateTime {
        year: dec_val(s.subrange(0, 4)) as u16,
        month: dec_val(s.subrange(4, 6)) as u8,
        day: dec_val(s.subrange(6, 8)) as u8,
        hour: dec_val(s.subrange(8, 10)) as u8,
        min: dec_val(s.subrange(10, 12)) as u8,
        sec: dec_val(s.subrange(12, 14)) as u8,
    }
}

/// What `parse_datetime` returns: the decoded fields for exactly fourteen
/// digits, a distinct length failure otherwise, and a value failure if any
/// byte is not a digit.
pub open spec fn spec_parse_datetime(s: Seq<u8>) -> Result<KomsiDateTime, KomsiError> {
    if s.len() != 14 {
        Err(KomsiError::InvalidDateTime)
    } else if !all_digits(s) {
        Err(KomsiError::InvalidValue)
    } else {
        Ok(spec_datetime_fields(s))
    }
}

/// Decode a datetime payload of exactly fourteen digits `YYYYMMDDHHMMSS`.
pub fn parse_datetime(digits: &[u8]) -> (r: Result<KomsiDateTime, KomsiError>)
    ensures
        r == spec_parse_datetime(digits@),
{
    if digits.len() != 14 {
        return Err(KomsiError::InvalidDateTime);
    }
    proof {
        assert(pow10(0) == 1);
        assert(pow10(1) == 10);
        assert(pow10(2) == 100);
        assert(pow10(3) == 1000);
        assert(pow10(4) == 10000);
        if all_digits(digits@.subrange(0, 4)) {
            lemma_dec_val_upper(digits@.subrange(0, 4));
        }
        if all_digits(digits@.subrange(4, 6)) {
            lemma_dec_val_upper(digits@.subrange(4, 6));
        }
        if all_digits(digits@.subrange(6, 8)) {
            lemma_dec_val_upper(digits@.subrange(6, 8));
        }
        if all_digits(digits@.subrange(8, 10)) {
            lemma_dec_val_upper(digits@.subrange(8, 10));
        }
        if all_digits(digits@.subrange(10, 12)) {
            lemma_dec_val_upper(digits@.subrange(10, 12));
        }
        if all_digits(digits@.subrange(12, 14)) {
            lemma_dec_val_upper(digits@.subrange(12, 14));
        }
        if all_digits(digits@) {
            assert(all_digits(digits@.subrange(0, 4)));
            assert(all_digits(digits@.subrange(4, 6)));
            assert(all_digits(digits@.subrange(6, 8)));
            assert(all_digits(digits@.subrange(8, 10)));
            assert(all_digits(digits@.subrange(10, 12)));
            assert(all_digits(digits@.subrange(12, 14)));
        }
    }
    let year = match parse_slice_u16(&digits[0..4]) {
        Ok(v) => v,
        Err(e) => {
            return Err(e);
        },
    };
    let month = match parse_slice_u8(&digits[4..6]) {
        Ok(v) => v,
        Err(e) => {
            return Err(e);
        },
    };
    let day = match parse_slice_u8(&digits[6..8]) {
        Ok(v) => v,
        Err(e) => {
            return Err(e);
        },
    };
    let hour = match parse_slice_u8(&digits[8..10]) {
        Ok(v) => v,
        Err(e) => {
            return Err(e);
        },
    };
    let min = match parse_slice_u8(&digits[10..12]) {
        Ok(v) => v,
        Err(e) => {
            return Err(e);
        },
    };
    let sec = match parse_slice_u8(&digits[12..14]) {
        Ok(v) => v,
        Err(e) => {
            return Err(e);
        },
    };
    proof {
        assert forall|i: int| 0 <= i < digits@.len() implies is_digit_byte(digits@[i]) by {
            if i < 4 {
                assert(digits@.subrange(0, 4)[i] == digits@[i]);
            } else if i < 6 {
                assert(digits@.subrange(4, 6)[i - 4] == digits@[i]);
            } else if i < 8 {
                assert(digits@.subrange(6, 8)[i - 6] == digits@[i]);
            } else if i < 10 {
                assert(digits@.subrange(8, 10)[i - 8] == digits@[i]);
            } else if i < 12 {
                assert(digits@.subrange(10, 12)[i - 10] == digits@[i]);
            } else {
                assert(digits@.subrange(12, 14)[i - 12] == digits@[i]);
            }
        }
    }
    Ok(KomsiDateTime { year, month, day, hour, min, sec })
}

/// What `Command::from_parts` returns for a command letter and its digit
/// payload.  An empty payload denotes the value 0; a payload with a byte
/// that is not a digit is a value failure; a letter with no mapping is an
/// unknown-command failure carrying that letter.
pub open spec fn spec_from_parts(cmd_char: char, digits: Seq<u8>) -> Result<Command, KomsiError> {
    if digits.len() > 0 && !all_digits(digits) {
        Err(KomsiError::InvalidValue)
    } else {
        let v = dec_sat(digits);
        match cmd_char {
            'A' => Ok(Command::Ignition(v != 0)),
            'B' => Ok(Command::Engine(v != 0)),
            'C' => Ok(Command::PassengerDoorsOpen(v != 0)),
            'D' => Ok(Command::Indicator((v % 0x100) as u8)),
            'E' => Ok(Command::FixingBrake(v != 0)),
            'F' => Ok(Command::WarningLights(v != 0)),
            'G' => Ok(Command::MainLights(v != 0)),
            'H' => Ok(Command::FrontDoor(v != 0)),
            'I' => Ok(Command::SecondDoor(v != 0)),
            'J' => Ok(Command::ThirdDoor(v != 0)),
            'K' => Ok(Command::StopRequest(v != 0)),
            'L' => Ok(Command::StopBrake(v != 0)),
            'M' => Ok(Command::HighBeam(v != 0)),
            'N' => Ok(Command::BatteryLight(v != 0)),
            'O' => Ok(Command::SimulatorType((v % 0x100) as u8)),
            'P' => Ok(Command::DoorEnable(v != 0)),
            'o' => Ok(Command::Odometer(v)),
            'r' => match spec_parse_datetime(digits) {
                Ok(dt) => Ok(Command::DateTime(dt)),
                Err(e) => Err(e),
            },
            's' => Ok(Command::MaxSpeed((v % 0x1_0000_0000) as u32)),
            't' => Ok(Command::RPM((v % 0x1_0000_0000) as u32)),
            'u' => Ok(Command::Pressure((v % 0x1_0000_0000) as u32)),
            'v' => Ok(Command::Temperature((v % 0x1_0000_0000) as u32)),
            'w' => Ok(Command::Oil((v % 0x1_0000_0000) as u32)),
            'x' => Ok(Command::Fuel((v % 0x100) as u8)),
            'y' => Ok(Command::Speed((v % 0x1_0000_0000) as u32)),
            'z' => Ok(Command::Water((v % 0x1_0000_0000) as u32)),
            _ => Err(KomsiError::InvalidCommand(cmd_char)),
        }
    }
}

impl Command {
    /// Map a command letter and its digit payload to the typed command.
    pub fn from_parts(cmd_char: char, digits: &[u8]) -> (r: Result<Command, KomsiError>)
        ensures
            r == spec_from_parts(cmd_char, digits@),
    {
        let value_u64 = if digits.len() == 0 {
            0
        } else {
            match parse_u64(digits) {
                Ok(v) => v,
                Err(e) => {
                    return Err(e);
                },
            }
        };
        match cmd_char {
            'A' => Ok(Command::Ignition(value_u64 != 0)),
            'B' => Ok(Command::Engine(value_u64 != 0)),
            'C' => Ok(Command::PassengerDoorsOpen(value_u64 != 0)),
            'D' => Ok(Command::Indicator((value_u64 % 0x100) as u8)),
            'E' => Ok(Command::FixingBrake(value_u64 != 0)),
            'F' => Ok(Command::WarningLights(value_u64 != 0)),
            'G' => Ok(Command::MainLights(value_u64 != 0)),
            'H' => Ok(Command::FrontDoor(value_u64 != 0)),
            'I' => Ok(Command::SecondDoor(value_u64 != 0)),
            'J' => Ok(Command::ThirdDoor(value_u64 != 0)),
            'K' => Ok(Command::StopRequest(value_u64 != 0)),
            'L' => Ok(Command::StopBrake(value_u64 != 0)),
            'M' => Ok(Command::HighBeam(value_u64 != 0)),
            'N' => Ok(Command::BatteryLight(value_u64 != 0)),
            'O' => Ok(Command::SimulatorType((value_u64 % 0x100) as u8)),
            'P' => Ok(Command::DoorEnable(value_u64 != 0)),
            'o' => Ok(Command::Odometer(value_u64)),
            'r' => match parse_datetime(digits) {
                Ok(dt) => Ok(Command::DateTime(dt)),
                Err(e) => Err(e),
            },
            's' => Ok(Command::MaxSpeed((value_u64 % 0x1_0000_0000) as u32)),
            't' => Ok(Command::RPM((value_u64 % 0x1_0000_0000) as u32)),
            'u' => Ok(Command::Pressure((value_u64 % 0x1_0000_0000) as u32)),
            'v' => Ok(Command::Temperature((value_u64 % 0x1_0000_0000) as u32)),
            'w' => Ok(Command::Oil((value_u64 % 0x1_0000_0000) as u32)),
            'x' => Ok(Command::Fuel((value_u64 % 0x100) as u8)),
            'y' => Ok(Command::Speed((value_u64 % 0x1_0000_0000) as u32)),
            'z' => Ok(Command::Water((value_u64 % 0x1_0000_0000) as u32)),
            _ => Err(KomsiError::InvalidCommand(cmd_char)),
        }
    }
}

} // verus!
