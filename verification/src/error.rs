//! Error codes of the native radio library.
//!
//! Every native entry point reports failure through a negative `i32` return
//! code.  `BladeRfError` gives each documented code a name; codes outside the
//! documented table are kept verbatim in `Unknown`.

use vstd::prelude::*;

verus! {

/// A named error code of the native radio library.
///
/// Each variant stands for one documented negative return code; `Unknown`
/// carries any code outside the documented table.
#[derive(Debug, Clone, Copy, PartialEq, Eq, Structural)]
pub enum BladeRfError {
    Unexpected,
    Range,
    Inval,
    Mem,
    Io,
    Timeout,
    Nodev,
    Unsupported,
    Misaligned,
    Checksum,
    NoFile,
    UpdateFpga,
    UpdateFw,
    TimePast,
    QueueFull,
    FpgaOp,
    Permission,
    WouldBlock,
    NotInit,
    Unknown(i32),
}

/// The numeric return code that a given error stands for.
pub open spec fn code_of_error(e: BladeRfError) -> i32 {
    match e {
        BladeRfError::Unexpected => -1i32,
        BladeRfError::Range => -2i32,
        BladeRfError::Inval => -3i32,
        BladeRfError::Mem => -4i32,
        BladeRfError::Io => -5i32,
        BladeRfError::Timeout => -6i32,
        BladeRfError::Nodev => -7i32,
        BladeRfError::Unsupported => -8i32,
        BladeRfError::Misaligned => -9i32,
        BladeRfError::Checksum => -10i32,
        BladeRfError::NoFile => -11i32,
        BladeRfError::UpdateFpga => -12i32,
        BladeRfError::UpdateFw => -13i32,
        BladeRfError::TimePast => -14i32,
        BladeRfError::QueueFull => -15i32,
        BladeRfError::FpgaOp => -16i32,
        BladeRfError::Permission => -17i32,
        BladeRfError::WouldBlock => -18i32,
        BladeRfError::NotInit => -19i32,
        BladeRfError::Unknown(x) => x,
    }
}

/// The error that a given numeric return code names.
pub open spec fn error_of_code(code: i32) -> BladeRfError {
    if code == -1 {
        BladeRfError::Unexpected
    } else if code == -2 {
        BladeRfError::Range
    } else if code == -3 {
        BladeRfError::Inval
    } else if code == -4 {
        BladeRfError::Mem
    } else if code == -5 {
        BladeRfError::Io
    } else if code == -6 {
        BladeRfError::Timeout
    } else if code == -7 {
        BladeRfError::Nodev
    } else if code == -8 {
        BladeRfError::Unsupported
    } else if code == -9 {
        BladeRfError::Misaligned
    } else if code == -10 {
        BladeRfError::Checksum
    } else if code == -11 {
        BladeRfError::NoFile
    } else if code == -12 {
        BladeRfError::UpdateFpga
    } else if code == -13 {
        BladeRfError::UpdateFw
    } else if code == -14 {
        BladeRfError::TimePast
    } else if code == -15 {
        BladeRfError::QueueFull
    } else if code == -16 {
        BladeRfError::FpgaOp
    } else if code == -17 {
        BladeRfError::Permission
    } else if code == -18 {
        BladeRfError::WouldBlock
    } else if code == -19 {
        BladeRfError::NotInit
    } else {
        BladeRfError::Unknown(code)
    }
}

impl BladeRfError {
    /// Translate a native return code into the error it names.
    pub fn from_code(code: i32) -> (r: Self)
        ensures
            r == error_of_code(code),
    {
        match code {
            -1 => Self::Unexpected,
            -2 => Self::Range,
            -3 => Self::Inval,
            -4 => Self::Mem,
            -5 => Self::Io,
            -6 => Self::Timeout,
            -7 => Self::Nodev,
            -8 => Self::Unsupported,
            -9 => Self::Misaligned,
            -10 => Self::Checksum,
            -11 => Self::NoFile,
            -12 => Self::UpdateFpga,
            -13 => Self::UpdateFw,
            -14 => Self::TimePast,
            -15 => Self::QueueFull,
            -16 => Self::FpgaOp,
            -17 => Self::Permission,
            -18 => Self::WouldBlock,
            -19 => Self::NotInit,
            x => Self::Unknown(x),
        }
    }
}

impl From<BladeRfError> for i32 {
    /// The numeric return code that an error stands for.
    fn from(value: BladeRfError) -> (r: i32) {
        match value {
            BladeRfError::Unexpected => -1,
            BladeRfError::Range => -2,
            BladeRfError::Inval => -3,
            BladeRfError::Mem => -4,
            BladeRfError::Io => -5,
            BladeRfError::Timeout => -6,
            BladeRfError::Nodev => -7,
            BladeRfError::Unsupported => -8,
            BladeRfError::Misaligned => -9,
            BladeRfError::Checksum => -10,
            BladeRfError::NoFile => -11,
            BladeRfError::UpdateFpga => -12,
            BladeRfError::UpdateFw => -13,
            BladeRfError::TimePast => -14,
            BladeRfError::QueueFull => -15,
            BladeRfError::FpgaOp => -16,
            BladeRfError::Permission => -17,
            BladeRfError::WouldBlock => -18,
            BladeRfError::NotInit => -19,
            BladeRfError::Unknown(x) => x,
        }
    }
}

impl vstd::std_specs::convert::FromSpecImpl<BladeRfError> for i32 {
    open spec fn obeys_from_spec() -> bool {
        true
    }

    open spec fn from_spec(e: BladeRfError) -> i32 {
        code_of_error(e)
    }
}

/// Translating an error to its code and back yields the error again, as long
/// as the error is not an `Unknown` carrying a code of the documented table.
pub proof fn lemma_error_code_round_trip(e: BladeRfError)
    requires
        match e {
            BladeRfError::Unknown(x) => x < -19 || x > -1,
            _ => true,
        },
    ensures
        error_of_code(code_of_error(e)) == e,
{
}

/// Translating a code to its error and back yields the code again, for every
/// code.
pub proof fn lemma_code_error_round_trip(code: i32)
    ensures
        code_of_error(error_of_code(code)) == code,
{
}

} // verus!
