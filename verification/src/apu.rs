//! Audio registers shared across the sound channels.
//!
//! Only the parts the execution core's collaborators synchronize against
//! are modelled here: the master-enable gate of the audio unit and the
//! length-timer enable bit that several channels read from their
//! period-high register. Sample synthesis itself is a separate subsystem.

use vstd::prelude::*;
use crate::utils::{is_bit_set, reset_bit, set_bit};

pub mod length;
pub mod period;
pub mod wave;

use crate::apu::period::Period;
use crate::apu::wave::WaveChannel;

verus! {

/// The wave channel's bit in the master control register.
pub const CH3_ENABLED_INDEX: u8 = 2;

/// Whether the length timer is enabled in a period-high register value
/// (bit 6).
pub open spec fn spec_length_enabled(period_high: u8) -> bool {
    (period_high >> 6) & 1 == 1
}

/// Whether the audio unit as a whole is switched on: bit 7 of the master
/// control register.
pub fn apu_enabled(audio_master_control: u8) -> (enabled: bool)
    ensures
        enabled == ((audio_master_control >> 7) & 1 == 1),
{
    is_bit_set(audio_master_control, 7)
}

/// Whether a period-high register value has its length-timer enable bit
/// (bit 6) set.
pub fn length_enabled(period_high: u8) -> (enabled: bool)
    ensures
        enabled == spec_length_enabled(period_high),
{
    is_bit_set(period_high, 6)
}

/// A write to the wave channel's period-high register: the register takes
/// the new value, and when its trigger bit (bit 7) is set the channel is
/// triggered and its bit in the master control register switches on.
pub open spec fn spec_set_ch3_period_high(
    channel: WaveChannel,
    audio_master_control: u8,
    value: u8,
) -> (WaveChannel, u8) {
    let updated = WaveChannel { period: Period { high: value, ..channel.period }, ..channel };
    if (value >> 7) & 1 == 1 {
        (wave::spec_trigger(updated), audio_master_control | 0x04)
    } else {
        (updated, audio_master_control)
    }
}

/// Handles a write to the wave channel's period-high register and returns
/// the master control register as the write leaves it.
pub fn set_ch3_period_high(
    channel: &mut WaveChannel,
    audio_master_control: u8,
    new_period_high_value: u8,
) -> (new_control: u8)
    requires
        old(channel).wf(),
    ensures
        final(channel).wf(),
        (*final(channel), new_control) == spec_set_ch3_period_high(
            *old(channel),
            audio_master_control,
            new_period_high_value,
        ),
{
    proof {
        let control = audio_master_control;
        assert(control | (1u8 << 2u8) == control | 0x04) by (bit_vector);
    }
    channel.period.high = new_period_high_value;
    if wave::should_trigger(channel) {
        wave::trigger(channel);
        set_bit(audio_master_control, CH3_ENABLED_INDEX)
    } else {
        audio_master_control
    }
}

/// A write to the wave channel's gate register: bit 7 opens or closes the
/// digital-to-analog gate; closing it silences the channel and clears its
/// bit in the master control register.
pub open spec fn spec_set_ch3_dac_enabled(
    channel: WaveChannel,
    audio_master_control: u8,
    value: u8,
) -> (WaveChannel, u8) {
    if (value >> 7) & 1 == 1 {
        (WaveChannel { dac_enabled: true, ..channel }, audio_master_control)
    } else {
        (
            WaveChannel { dac_enabled: false, enabled: false, ..channel },
            audio_master_control & !0x04,
        )
    }
}

/// Handles a write to the wave channel's gate register and returns the
/// master control register as the write leaves it.
pub fn set_ch3_dac_enabled(
    channel: &mut WaveChannel,
    audio_master_control: u8,
    new_dac_enabled_register_value: u8,
) -> (new_control: u8)
    requires
        old(channel).wf(),
    ensures
        final(channel).wf(),
        (*final(channel), new_control) == spec_set_ch3_dac_enabled(
            *old(channel),
            audio_master_control,
            new_dac_enabled_register_value,
        ),
{
    proof {
        let control = audio_master_control;
        assert(control & !(1u8 << 2u8) == control & !0x04) by (bit_vector);
    }
    let should_disable = !is_bit_set(new_dac_enabled_register_value, 7);
    channel.dac_enabled = !should_disable;
    if should_disable {
        wave::disable(channel);
        reset_bit(audio_master_control, CH3_ENABLED_INDEX)
    } else {
        audio_master_control
    }
}

} // verus!
