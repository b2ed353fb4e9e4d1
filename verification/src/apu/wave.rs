//! The wave sound channel: a 32-step waveform paced by a period divider
//! and silenced by a length counter.

use vstd::prelude::*;
use crate::apu::length;
use crate::apu::length::Length;
use crate::apu::period;
use crate::apu::period::Period;
use crate::apu::spec_length_enabled;
use crate::apu::length_enabled;
use crate::utils::is_bit_set;

verus! {

/// Wave channel state: whether it plays, its digital-to-analog gate, the
/// length counter, the volume register, the period divider, and which of
/// the 32 waveform steps it is on.
pub struct WaveChannel {
    pub enabled: bool,
    pub dac_enabled: bool,
    pub length: Length,
    pub volume: u8,
    pub period: Period,
    pub wave_position: u8,
}

impl WaveChannel {
    /// The waveform position always names one of the 32 samples.
    pub open spec fn wf(&self) -> bool {
        self.wave_position < 32
    }
}

/// The channel after running its period divider for `cycles / 2` pacing
/// ticks: the waveform advances one step (wrapping past 31 to 0) for every
/// divider reload. A disabled channel does not run.
pub open spec fn spec_wave_step(channel: WaveChannel, cycles: u8) -> WaveChannel {
    if channel.enabled {
        let n = (cycles / 2) as nat;
        WaveChannel {
            period: period::spec_period_after(channel.period, n),
            wave_position: ((channel.wave_position + period::spec_period_reloads(
                channel.period,
                n,
            )) % 32) as u8,
            ..channel
        }
    } else {
        channel
    }
}

/// The channel after one length-counter step: when the length timer is
/// enabled it counts down, and the channel switches off the moment the
/// countdown is exhausted.
pub open spec fn spec_step_length(channel: WaveChannel) -> WaveChannel {
    if spec_length_enabled(channel.period.high) {
        let timer = if channel.length.timer > 0 {
            (channel.length.timer - 1) as u16
        } else {
            0u16
        };
        WaveChannel {
            length: Length { timer },
            enabled: if timer == 0 {
                false
            } else {
                channel.enabled
            },
            ..channel
        }
    } else {
        channel
    }
}

/// The channel after a trigger write: it starts playing if its
/// digital-to-analog gate is on, and the length countdown restarts from
/// its maximum.
pub open spec fn spec_trigger(channel: WaveChannel) -> WaveChannel {
    WaveChannel {
        enabled: if channel.dac_enabled {
            true
        } else {
            channel.enabled
        },
        length: Length { timer: length::MAX_WAVE_CHANNEL_LENGTH },
        ..channel
    }
}

/// A wave channel at power-on: silent, gate closed, everything cleared.
pub fn initialize_wave_channel() -> (channel: WaveChannel)
    ensures
        channel.wf(),
        !channel.enabled,
        !channel.dac_enabled,
        channel.length.timer == 0,
        channel.volume == 0,
        channel.period.low == 0,
        channel.period.high == 0,
        channel.period.divider == 0,
        channel.wave_position == 0,
{
    WaveChannel {
        enabled: false,
        dac_enabled: false,
        length: length::initialize_length(),
        volume: 0,
        period: period::initalize_period(),
        wave_position: 0,
    }
}

/// Runs the channel for the machine cycles the last instruction consumed.
pub fn step(channel: &mut WaveChannel, last_instruction_clock_cycles: u8)
    requires
        old(channel).wf(),
    ensures
        final(channel).wf(),
        *final(channel) == spec_wave_step(*old(channel), last_instruction_clock_cycles),
{
    if channel.enabled {
        let reloads = period::step(&mut channel.period, last_instruction_clock_cycles / 2);
        channel.wave_position = ((channel.wave_position as u16 + reloads as u16) % 32) as u8;
    }
}

/// Whether a write to the period-high register has just switched the
/// length timer on: it was off in the original value and is on now.
pub fn should_clock_length_on_enable(channel: &WaveChannel, original_period_high_value: u8) -> (
    clock: bool)
    ensures
        clock == (!spec_length_enabled(original_period_high_value) && spec_length_enabled(
            channel.period.high,
        )),
{
    let new_period_high_value = channel.period.high;
    !length_enabled(original_period_high_value) && length_enabled(new_period_high_value)
}

/// Whether a trigger should cost one length-counter step: the countdown
/// sits at its maximum while the length timer is enabled.
pub fn should_clock_length_on_trigger(channel: &WaveChannel) -> (clock: bool)
    ensures
        clock == (channel.length.timer == length::MAX_WAVE_CHANNEL_LENGTH && spec_length_enabled(
            channel.period.high,
        )),
{
    length::at_max_wave_channel_length(&channel.length) && length_enabled(channel.period.high)
}

/// One length-counter step, switching the channel off when the countdown
/// runs out.
pub fn step_length(channel: &mut WaveChannel)
    requires
        old(channel).wf(),
    ensures
        final(channel).wf(),
        *final(channel) == spec_step_length(*old(channel)),
{
    let length_timer_enabled = length_enabled(channel.period.high);
    if length_timer_enabled {
        length::step(&mut channel.length);
        if channel.length.timer == 0 {
            disable(channel);
        }
    }
}

/// Handles a trigger write: starts the channel when its gate is on and
/// restarts the length countdown.
pub fn trigger(channel: &mut WaveChannel)
    requires
        old(channel).wf(),
    ensures
        final(channel).wf(),
        *final(channel) == spec_trigger(*old(channel)),
{
    if channel.dac_enabled {
        channel.enabled = true;
    }
    length::reload_wave_channel_timer_with_maximum(&mut channel.length);
}

/// Switches the channel off; every other register keeps its value.
pub fn disable(channel: &mut WaveChannel)
    ensures
        final(channel).enabled == false,
        final(channel).dac_enabled == old(channel).dac_enabled,
        final(channel).length == old(channel).length,
        final(channel).volume == old(channel).volume,
        final(channel).period == old(channel).period,
        final(channel).wave_position == old(channel).wave_position,
{
    channel.enabled = false;
}

/// Whether a period-high write carries the trigger bit (bit 7).
pub fn should_trigger(channel: &WaveChannel) -> (trigger_set: bool)
    ensures
        trigger_set == ((channel.period.high >> 7) & 1 == 1),
{
    is_bit_set(channel.period.high, 7)
}

} // verus!
