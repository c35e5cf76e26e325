//! A KOMSI-to-J1939 protocol bridge library.
//!
//! The library accepts the text-based KOMSI vehicle-simulator command stream
//! byte by byte, keeps the shared vehicle state and a simulated wall clock,
//! and encodes the state as J1939 protocol data units for a tachograph /
//! instrument cluster on a CAN bus.  It also contains the decision logic of
//! the CAN bus manager: outbound queuing, the diagnostic-reset answer, and
//! bus-fault recovery.

pub mod can;
pub mod clock;
pub mod dispatch;
pub mod encoders;
pub mod frame;
pub mod komsi;
pub mod parser;
pub mod queue;
pub mod vehicle;

pub use komsi::Command;
pub use komsi::KomsiDateTime;
pub use komsi::KomsiError;
