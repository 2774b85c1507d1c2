//! The one clock reading the dashboard makes: the local hour of day that
//! selects the "current price" entry of the series.

use vstd::prelude::*;

verus! {

/// Relies on chrono::Local::now together with chrono::Timelike::hour,
/// whose documentation states that the hour number is from 0 to 23.
#[verifier::external_body]
fn local_hour_raw() -> (h: u32)
    ensures
        h < 24,
{
    chrono::Timelike::hour(&chrono::Local::now())
}

/// The current local wall-clock hour of the day, 0 to 23.
pub fn current_wall_clock_hour() -> (h: u8)
    ensures
        h < 24,
{
    let h = local_hour_raw();
    h as u8
}

} // verus!
