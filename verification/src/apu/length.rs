//! The length counter that silences a sound channel after a programmed
//! number of frame-sequencer steps.

use vstd::prelude::*;

verus! {

/// The longest countdown the wave channel's length counter can hold.
pub const MAX_WAVE_CHANNEL_LENGTH: u16 = 256;

/// A countdown of remaining frame-sequencer steps before the channel is cut.
pub struct Length {
    pub timer: u16,
}

/// A length counter with nothing loaded.
pub fn initialize_length() -> (length: Length)
    ensures
        length.timer == 0,
{
    Length { timer: 0 }
}

/// One frame-sequencer step: the countdown loses one step, stopping at zero.
pub fn step(length: &mut Length)
    ensures
        final(length).timer == if old(length).timer > 0 {
            (old(length).timer - 1) as u16
        } else {
            0u16
        },
{
    if length.timer > 0 {
        length.timer = length.timer - 1;
    }
}

/// Whether the wave channel's countdown holds its maximum value.
pub fn at_max_wave_channel_length(length: &Length) -> (at_max: bool)
    ensures
        at_max == (length.timer == MAX_WAVE_CHANNEL_LENGTH),
{
    length.timer == MAX_WAVE_CHANNEL_LENGTH
}

/// Restarts the wave channel's countdown from its maximum value.
pub fn reload_wave_channel_timer_with_maximum(length: &mut Length)
    ensures
        final(length).timer == MAX_WAVE_CHANNEL_LENGTH,
{
    length.timer = MAX_WAVE_CHANNEL_LENGTH;
}

} // verus!
