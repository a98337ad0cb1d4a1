//!  clint -- Core Local Interrupt

use vstd::prelude::*;

verus! {

/// Ticks of the timer between two timer interrupts.
pub const TIMER_DURATION: u64 = 10000000;

/// `mtimecmp_addr`: Address of the Compare Value for the Core Local Interrupt (clint), triggers timer interrupt.
pub const MTIMECMP_ADDR: usize = 0x0200_4000;

/// `mtime`: 64bit register of the timer incremented every clock-cycle.
pub const MTIME_ADDR: usize = 0x0200_BFF8;

/// The compare value that lets the next timer interrupt come one duration after `mtime`.
pub fn set_time_cmp(mtime: u64) -> (mtimecmp: u64)
    requires
        mtime + TIMER_DURATION <= u64::MAX,
    ensures
        mtimecmp == mtime + TIMER_DURATION,
{
    mtime + TIMER_DURATION
}

/// The compare value that keeps the timer silent.
pub fn init() -> (mtimecmp: u64)
    ensures
        mtimecmp == u64::MAX,
{
    u64::MAX
}

} // verus!
