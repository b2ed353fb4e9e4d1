//! The period divider that paces a sound channel.
//!
//! The divider counts down once per pacing tick; when it hits zero it is
//! reloaded from the 11-bit period value spread over the `low` and `high`
//! registers, and the channel advances one waveform step.

use vstd::prelude::*;

verus! {

/// Period registers and the countdown divider they reload.
pub struct Period {
    pub low: u8,
    pub high: u8,
    pub divider: u16,
}

/// The 11-bit period value: the low three bits of `high` over all of `low`.
pub open spec fn spec_period_value(period: Period) -> u16 {
    ((period.high & 0x07) as u16 * 256 + period.low as u16) as u16
}

/// The divider reload value: the distance from the period value to 2048.
pub open spec fn spec_period_divider(period: Period) -> u16 {
    (2048 - spec_period_value(period)) as u16
}

/// One pacing tick: the divider decrements (wrapping modulo 2^16) and
/// reloads when it reaches zero.
pub open spec fn spec_period_tick(period: Period) -> Period {
    if period.divider == 1 {
        Period { divider: spec_period_divider(period), ..period }
    } else if period.divider == 0 {
        Period { divider: 0xFFFF, ..period }
    } else {
        Period { divider: (period.divider - 1) as u16, ..period }
    }
}

/// Whether one pacing tick from this state reloads the divider.
pub open spec fn spec_period_tick_reloads(period: Period) -> bool {
    period.divider == 1
}

/// The period state after `n` pacing ticks.
pub open spec fn spec_period_after(period: Period, n: nat) -> Period
    decreases n,
{
    if n == 0 {
        period
    } else {
        spec_period_tick(spec_period_after(period, (n - 1) as nat))
    }
}

/// How many of the first `n` pacing ticks reload the divider.
pub open spec fn spec_period_reloads(period: Period, n: nat) -> nat
    decreases n,
{
    if n == 0 {
        0
    } else {
        spec_period_reloads(period, (n - 1) as nat) + if spec_period_tick_reloads(
            spec_period_after(period, (n - 1) as nat),
        ) {
            1nat
        } else {
            0nat
        }
    }
}

/// A period whose registers and divider are all cleared.
pub fn initalize_period() -> (period: Period)
    ensures
        period.low == 0,
        period.high == 0,
        period.divider == 0,
{
    Period { low: 0, high: 0, divider: 0 }
}

/// The 11-bit period value currently programmed into the registers.
pub fn calculate_period_value(period: &Period) -> (value: u16)
    ensures
        value == spec_period_value(*period),
        value < 2048,
{
    proof {
        let hb = period.high;
        assert(hb & 0x07 <= 7) by (bit_vector);
    }
    let period_high_bits = (period.high & 0x07) as u16;
    let period_low_bits = period.low as u16;
    period_high_bits * 256 + period_low_bits
}

/// The value the divider restarts from after a reload.
pub fn calculate_period_divider(period: &Period) -> (divider: u16)
    ensures
        divider == spec_period_divider(*period),
{
    2048 - calculate_period_value(period)
}

/// Runs the divider for `divider_increment` pacing ticks and reports how
/// many times it reloaded; the caller advances its waveform once per reload.
pub fn step(period: &mut Period, divider_increment: u8) -> (reloads: u8)
    ensures
        *final(period) == spec_period_after(*old(period), divider_increment as nat),
        reloads == spec_period_reloads(*old(period), divider_increment as nat),
        reloads <= divider_increment,
{
    let mut reloads: u8 = 0;
    let mut i: u8 = 0;
    while i < divider_increment
        invariant
            i <= divider_increment,
            reloads <= i,
            *period == spec_period_after(*old(period), i as nat),
            reloads == spec_period_reloads(*old(period), i as nat),
        decreases divider_increment - i,
    {
        if period.divider == 1 {
            period.divider = calculate_period_divider(period);
            reloads = reloads + 1;
        } else if period.divider == 0 {
            period.divider = 0xFFFF;
        } else {
            period.divider = period.divider - 1;
        }
        i += 1;
    }
    reloads
}

} // verus!
