//! A CAN data frame as this bridge emits and consumes it: a 29-bit extended
//! identifier and a fixed eight-byte payload (every J1939 message this
//! system produces fills all eight bytes).

use vstd::prelude::*;

verus! {

/// Upper bound of a 29-bit extended CAN identifier.
pub const CAN_EXTENDED_ID_MAX: u32 = 0x1fff_ffff;

/// A CAN data frame with an extended identifier and an eight-byte payload.
#[derive(Debug, Clone, Copy, PartialEq, Eq)]
pub struct CanFrame {
    pub id: u32,
    pub data: [u8; 8],
}

impl CanFrame {
    /// The identifier fits in 29 bits.
    pub open spec fn wf(self) -> bool {
        self.id <= CAN_EXTENDED_ID_MAX
    }
}

} // verus!
