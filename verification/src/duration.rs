//! What the library knows of `std::time::Duration`.

use std::time::Duration;
use vstd::prelude::*;

verus! {

/// The number of whole seconds that a duration holds. The fraction of a
/// second that it may hold besides is not modelled: nothing here reads it.
pub uninterp spec fn duration_secs(d: Duration) -> u64;

/// `Duration::from_secs` is trusted to make a duration of exactly the given
/// number of whole seconds.
pub assume_specification[ Duration::from_secs ](secs: u64) -> (d: Duration)
    ensures
        duration_secs(d) == secs,
;

/// `Duration::as_secs` is trusted to return the number of whole seconds that
/// the duration holds.
pub assume_specification[ Duration::as_secs ](d: &Duration) -> (secs: u64)
    ensures
        secs == duration_secs(*d),
;

/// `Duration` is `Copy`: its `clone` is trusted to return the same
/// duration.
pub assume_specification[ <Duration as Clone>::clone ](d: &Duration) -> (copy: Duration)
    ensures
        copy == *d,
;

} // verus!
