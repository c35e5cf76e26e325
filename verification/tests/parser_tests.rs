use komsi2tacho::komsi::Command;
use komsi2tacho::komsi::KomsiDateTime;
use komsi2tacho::komsi::KomsiError;
use komsi2tacho::parser::Parser;

#[test]
fn speed_command_single() {
    let mut p = Parser::new();
    let out = p.feed(b"y90;");
    assert_eq!(out, vec![Ok(Command::Speed(90))]);
}

#[test]
fn command_split_across_chunks() {
    let mut p = Parser::new();
    assert!(p.feed(b"y9").is_empty());
    let out = p.feed(b"0\n");
    assert_eq!(out, vec![Ok(Command::Speed(90))]);
}

#[test]
fn finalize_on_next_letter() {
    let mut p = Parser::new();
    let out = p.feed(b"y90s100;");
    assert_eq!(
        out,
        vec![Ok(Command::Speed(90)), Ok(Command::MaxSpeed(100))]
    );
}

#[test]
fn no_leakage_between_commands() {
    let mut p = Parser::new();
    let out = p.feed(b"y90;s5;");
    assert_eq!(out, vec![Ok(Command::Speed(90)), Ok(Command::MaxSpeed(5))]);
}

#[test]
fn empty_digits_default_to_zero() {
    let mut p = Parser::new();
    let out = p.feed(b"A;B1 ");
    assert_eq!(
        out,
        vec![Ok(Command::Ignition(false)), Ok(Command::Engine(true))]
    );
}

#[test]
fn digits_capped_at_sixteen() {
    let mut p = Parser::new();
    let out = p.feed(b"o12345678901234567890;");
    assert_eq!(out, vec![Ok(Command::Odometer(1234567890123456))]);
}

#[test]
fn digits_while_idle_are_ignored() {
    let mut p = Parser::new();
    let out = p.feed(b"123x7;");
    assert_eq!(out, vec![Ok(Command::Fuel(7))]);
}

#[test]
fn noise_bytes_are_ignored() {
    let mut p = Parser::new();
    let out = p.feed(b".!y5\r");
    assert_eq!(out, vec![Ok(Command::Speed(5))]);
}

#[test]
fn separators_while_idle_emit_nothing() {
    let mut p = Parser::new();
    assert!(p.feed(b" \r\n;;").is_empty());
}

#[test]
fn unknown_command_letter() {
    let mut p = Parser::new();
    let out = p.feed(b"Q1;");
    assert_eq!(out, vec![Err(KomsiError::InvalidCommand('Q'))]);
}

#[test]
fn parsing_resumes_after_error() {
    let mut p = Parser::new();
    let out = p.feed(b"Q1;y80;");
    assert_eq!(
        out,
        vec![
            Err(KomsiError::InvalidCommand('Q')),
            Ok(Command::Speed(80))
        ]
    );
}

#[test]
fn datetime_command() {
    let mut p = Parser::new();
    let out = p.feed(b"r20260213080000\r");
    assert_eq!(
        out,
        vec![Ok(Command::DateTime(KomsiDateTime {
            year: 2026,
            month: 2,
            day: 13,
            hour: 8,
            min: 0,
            sec: 0,
        }))]
    );
}

#[test]
fn datetime_wrong_length() {
    let mut p = Parser::new();
    let out = p.feed(b"r2026;");
    assert_eq!(out, vec![Err(KomsiError::InvalidDateTime)]);
}

#[test]
fn from_parts_rejects_non_digit_payload() {
    assert_eq!(
        Command::from_parts('y', b"9a"),
        Err(KomsiError::InvalidValue)
    );
}

#[test]
fn from_parts_saturates_huge_values() {
    assert_eq!(
        Command::from_parts('o', b"99999999999999999999"),
        Ok(Command::Odometer(u64::MAX))
    );
}

#[test]
fn from_parts_truncating_casts() {
    assert_eq!(Command::from_parts('D', b"257"), Ok(Command::Indicator(1)));
    assert_eq!(Command::from_parts('x', b"255"), Ok(Command::Fuel(255)));
}

#[test]
fn from_parts_datetime_needs_digits() {
    assert_eq!(
        Command::from_parts('r', b"2026021308000a"),
        Err(KomsiError::InvalidValue)
    );
}

#[test]
fn uppercase_flag_commands() {
    let mut p = Parser::new();
    let out = p.feed(b"C1;K0;");
    assert_eq!(
        out,
        vec![
            Ok(Command::PassengerDoorsOpen(true)),
            Ok(Command::StopRequest(false))
        ]
    );
}
