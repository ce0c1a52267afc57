//! The tick scheduler's decision: whether the polled monotonic counter has
//! advanced a full tick quantum past the recorded start. The polling loop
//! around it belongs to the driver that owns the hardware counter.

use vstd::prelude::*;
use crate::TICK_QUANTUM;

verus! {

/// True once the counter has advanced at least one tick quantum since
/// `start`. The counter is monotonic, so a current reading is never below the
/// recorded start.
pub fn quantum_elapsed(start: u128, now: u128) -> (r: bool)
    requires
        start <= now,
    ensures
        r == (now - start >= TICK_QUANTUM),
{
    now - start >= TICK_QUANTUM as u128
}

} // verus!
