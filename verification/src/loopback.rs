//! Loopback configuration of the radio.
//!
//! The native library names each loopback mode by a small numeric code.
//! `BladeRFLoopback` lists the modes, `mode_code` gives a mode's code, and
//! `try_from` reads a code coming back from the hardware, rejecting any
//! number outside the table.

use vstd::prelude::*;

verus! {

/// An internal loopback mode of the radio.
///
/// `LbNone` is normal operation with loopback disabled; the other modes
/// route the transmit path back into a stage of the receive path, or loop
/// inside the firmware or the RF chip.
#[derive(Copy, Clone, PartialEq, Eq, Structural, Debug)]
pub enum BladeRFLoopback {
    LbNone,
    RfLna1,
    RfLna2,
    RfLna3,
    Firmware,
    RficBist,
    BbTxlpfRxlpf,
    BbTxlpfRxvga2,
    BbTxvga1Rxlpf,
    BbTxvga1Rxvga2,
}

/// The numeric code of a loopback mode, as the native enumeration defines it.
pub open spec fn code_of_loopback(l: BladeRFLoopback) -> u32 {
    match l {
        BladeRFLoopback::Firmware => 1u32,
        BladeRFLoopback::BbTxlpfRxvga2 => 2u32,
        BladeRFLoopback::BbTxvga1Rxvga2 => 3u32,
        BladeRFLoopback::BbTxlpfRxlpf => 4u32,
        BladeRFLoopback::BbTxvga1Rxlpf => 5u32,
        BladeRFLoopback::RfLna1 => 6u32,
        BladeRFLoopback::RfLna2 => 7u32,
        BladeRFLoopback::RfLna3 => 8u32,
        BladeRFLoopback::LbNone => 9u32,
        BladeRFLoopback::RficBist => 10u32,
    }
}

/// The loopback mode that a numeric code names, if the code is in the table.
pub open spec fn loopback_of_code(code: u32) -> Option<BladeRFLoopback> {
    if code == 1 {
        Some(BladeRFLoopback::Firmware)
    } else if code == 2 {
        Some(BladeRFLoopback::BbTxlpfRxvga2)
    } else if code == 3 {
        Some(BladeRFLoopback::BbTxvga1Rxvga2)
    } else if code == 4 {
        Some(BladeRFLoopback::BbTxlpfRxlpf)
    } else if code == 5 {
        Some(BladeRFLoopback::BbTxvga1Rxlpf)
    } else if code == 6 {
        Some(BladeRFLoopback::RfLna1)
    } else if code == 7 {
        Some(BladeRFLoopback::RfLna2)
    } else if code == 8 {
        Some(BladeRFLoopback::RfLna3)
    } else if code == 9 {
        Some(BladeRFLoopback::LbNone)
    } else if code == 10 {
        Some(BladeRFLoopback::RficBist)
    } else {
        None
    }
}

impl BladeRFLoopback {
    /// Read a numeric loopback code coming back from the native library.
    ///
    /// A code of the table yields its mode; any other code is handed back
    /// unchanged as the error.
    pub fn try_from(value: u32) -> (r: Result<Self, u32>)
        ensures
            r == match loopback_of_code(value) {
                Some(l) => Result::<BladeRFLoopback, u32>::Ok(l),
                None => Result::<BladeRFLoopback, u32>::Err(value),
            },
    {
        let v = match value {
            1 => Self::Firmware,
            2 => Self::BbTxlpfRxvga2,
            3 => Self::BbTxvga1Rxvga2,
            4 => Self::BbTxlpfRxlpf,
            5 => Self::BbTxvga1Rxlpf,
            6 => Self::RfLna1,
            7 => Self::RfLna2,
            8 => Self::RfLna3,
            9 => Self::LbNone,
            10 => Self::RficBist,
            _ => {
                return Err(value);
            },
        };
        Ok(v)
    }

    /// The numeric code handed to the native call that sets the loopback.
    pub fn code(&self) -> (r: u32)
        ensures
            r == code_of_loopback(*self),
    {
        match self {
            BladeRFLoopback::Firmware => 1,
            BladeRFLoopback::BbTxlpfRxvga2 => 2,
            BladeRFLoopback::BbTxvga1Rxvga2 => 3,
            BladeRFLoopback::BbTxlpfRxlpf => 4,
            BladeRFLoopback::BbTxvga1Rxlpf => 5,
            BladeRFLoopback::RfLna1 => 6,
            BladeRFLoopback::RfLna2 => 7,
            BladeRFLoopback::RfLna3 => 8,
            BladeRFLoopback::LbNone => 9,
            BladeRFLoopback::RficBist => 10,
        }
    }
}

/// Every loopback mode's code reads back as that mode.
pub proof fn lemma_loopback_code_round_trip(l: BladeRFLoopback)
    ensures
        loopback_of_code(code_of_loopback(l)) == Some(l),
{
}

/// Every code of the table writes back as itself.
pub proof fn lemma_code_loopback_round_trip(code: u32)
    requires
        loopback_of_code(code) is Some,
    ensures
        code_of_loopback(loopback_of_code(code)->Some_0) == code,
{
}

/// The decision behind reading the loopback state from the hardware: a
/// negative status is handed on as the error; a non-negative status yields
/// the mode of the reported code, or the generic failure code when the
/// number is outside the table.
pub fn loopback_from_status(res: i32, raw: u32) -> (r: Result<BladeRFLoopback, isize>)
    ensures
        res < 0 ==> r == Result::<BladeRFLoopback, isize>::Err(res as isize),
        res >= 0 && loopback_of_code(raw) is Some ==> r == Result::<
            BladeRFLoopback,
            isize,
        >::Ok(loopback_of_code(raw)->Some_0),
        res >= 0 && loopback_of_code(raw) is None ==> r == Result::<
            BladeRFLoopback,
            isize,
        >::Err(-1isize),
{
    if res < 0 {
        return Err(res as isize);
    }
    match BladeRFLoopback::try_from(raw) {
        Ok(v) => Ok(v),
        Err(_) => Err(-1),
    }
}

} // verus!
