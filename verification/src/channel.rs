//! Logical signal paths of the radio.
//!
//! The native library addresses each RX or TX path through a small numeric
//! channel-layout code.  `BladeRFChannel` names the four paths and
//! `layout_code` gives the number that the native calls expect.

use vstd::prelude::*;

verus! {

/// A logical RX or TX signal path on the hardware.
#[derive(Copy, Clone, PartialEq, Eq, Structural, Debug)]
pub enum BladeRFChannel {
    Rx1,
    Rx2,
    Tx1,
    Tx2,
}

/// The numeric channel-layout code of a signal path, as the native calls
/// expect it: receive paths get even codes, transmit paths odd ones.
pub open spec fn layout_code_of_channel(c: BladeRFChannel) -> u32 {
    match c {
        BladeRFChannel::Rx1 => 0u32,
        BladeRFChannel::Tx1 => 1u32,
        BladeRFChannel::Rx2 => 2u32,
        BladeRFChannel::Tx2 => 3u32,
    }
}

impl BladeRFChannel {
    /// The numeric channel-layout code handed to the native calls.
    pub fn layout_code(&self) -> (r: u32)
        ensures
            r == layout_code_of_channel(*self),
    {
        match self {
            BladeRFChannel::Rx1 => 0,
            BladeRFChannel::Tx1 => 1,
            BladeRFChannel::Rx2 => 2,
            BladeRFChannel::Tx2 => 3,
        }
    }
}

} // verus!
