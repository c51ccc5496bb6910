//! Durations of whole seconds. `Duration` itself stays opaque: a timeout or
//! a delay is made here and carried to whoever waits.

use std::time::Duration;
use vstd::prelude::*;

verus! {

/// The `Duration` that `Duration::from_secs` makes of `secs`: that many
/// whole seconds.
pub uninterp spec fn duration_of_secs(secs: u64) -> Duration;

/// Trusted: `Duration::from_secs` never panics, and what it returns depends
/// on `secs` alone.
pub assume_specification[ Duration::from_secs ](secs: u64) -> (duration: Duration)
    ensures
        duration == duration_of_secs(secs),
;

} // verus!
