//! The narrow interfaces of the out-of-core sinks.
//!
//! The OS volume sink and the display-brightness sink each accept one
//! integer in `[0, 100]` and fail on anything else; the single external call
//! they then make is performed by a driver.  The range checks, with the
//! exact messages the callers see, live here.

use vstd::prelude::*;

verus! {

/// Admits a system-mixer volume request: the sink accepts `0` to `100` and
/// rejects everything above with its fixed message.
pub fn validate_system_volume(volume: u8) -> (r: Result<(), String>)
    ensures
        volume <= 100 <==> r is Ok,
        r is Err ==> r->Err_0@ == "Volume must be between 0 and 100"@,
{
    if volume > 100 {
        Err(String::from_str("Volume must be between 0 and 100"))
    } else {
        Ok(())
    }
}

/// Admits a backlight-brightness request: the sink accepts `0` to `100` —
/// the duty-cycle fraction it is turned into — and rejects everything above
/// with its fixed message.
pub fn validate_brightness(percentage: u8) -> (r: Result<(), String>)
    ensures
        percentage <= 100 <==> r is Ok,
        r is Err ==> r->Err_0@ == "Brightness percentage must be 0-100"@,
{
    if percentage > 100 {
        Err(String::from_str("Brightness percentage must be 0-100"))
    } else {
        Ok(())
    }
}

} // verus!
