//! Return-code translation.
//!
//! Every native entry point reports success or failure through a signed
//! status: non-negative means success, a negative value is an error code.
//! The functions here turn such a status, together with whatever value the
//! call produced, into a `Result`, exactly as the callers hand it on.

use vstd::prelude::*;

verus! {

/// Whether a native status reports success.
pub open spec fn status_ok(res: i32) -> bool {
    res >= 0
}

/// Translate a bare native status: a non-negative status is handed back as
/// the success value, a negative one as the error.
pub fn handle_status(res: i32) -> (r: Result<isize, isize>)
    ensures
        res >= 0 ==> r == Result::<isize, isize>::Ok(res as isize),
        res < 0 ==> r == Result::<isize, isize>::Err(res as isize),
{
    if res >= 0 {
        Ok(res as isize)
    } else {
        Err(res as isize)
    }
}

/// Translate a native status together with the value the call filled in: on
/// success the value is handed on, on failure the status is the error.
pub fn handle_value<T>(res: i32, out: T) -> (r: Result<T, isize>)
    ensures
        res >= 0 ==> r == Result::<T, isize>::Ok(out),
        res < 0 ==> r == Result::<T, isize>::Err(res as isize),
{
    if res >= 0 {
        Ok(out)
    } else {
        Err(res as isize)
    }
}

/// The decision behind asking whether the FPGA is configured: the native
/// call answers with a positive status for yes, zero for no, and a negative
/// error code otherwise.
pub fn fpga_configured_from_status(res: i32) -> (r: Result<bool, isize>)
    ensures
        res > 0 ==> r == Result::<bool, isize>::Ok(true),
        res == 0 ==> r == Result::<bool, isize>::Ok(false),
        res < 0 ==> r == Result::<bool, isize>::Err(res as isize),
{
    if res > 0 {
        Ok(true)
    } else if res == 0 {
        Ok(false)
    } else {
        Err(res as isize)
    }
}

/// The decision behind listing attached devices: the native call answers
/// with the number of devices found, and only a strictly positive count is
/// success; zero and negative counts are both handed back as the error.
pub fn device_count_from_status(res: i32) -> (r: Result<usize, isize>)
    ensures
        res > 0 ==> r == Result::<usize, isize>::Ok(res as usize),
        res <= 0 ==> r == Result::<usize, isize>::Err(res as isize),
{
    if res > 0 {
        Ok(res as usize)
    } else {
        Err(res as isize)
    }
}

/// The number of in-flight transfers a stream is configured with when the
/// caller names none.
pub fn transfers_or_default(num_transfers: Option<u32>) -> (r: u32)
    ensures
        r == match num_transfers {
            Some(n) => n,
            None => 4u32,
        },
{
    match num_transfers {
        Some(n) => n,
        None => 4,
    }
}

} // verus!
