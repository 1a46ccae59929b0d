use vstd::prelude::*;
use crate::settings::GameSettings;

verus! {

/// Loudness of a sound channel in hundredths of a percent (10000 is full
/// volume): the master volume times the channel's volume, both in percent.
pub fn mixed_volume(master_volume: u32, channel_volume: u32) -> (volume: u64)
    ensures
        volume == master_volume * channel_volume,
{
    assert(master_volume * channel_volume <= 0xffff_ffff * 0xffff_ffff) by (nonlinear_arith)
        requires master_volume <= 0xffff_ffff, channel_volume <= 0xffff_ffff;
    master_volume as u64 * channel_volume as u64
}

/// Loudness of the background music (hundredths of a percent).
pub fn music_volume(settings: &GameSettings) -> (volume: u64)
    ensures
        volume == settings.master_volume * settings.music_volume,
{
    mixed_volume(settings.master_volume, settings.music_volume)
}

/// Loudness of sound effects (hundredths of a percent).
pub fn effects_volume(settings: &GameSettings) -> (volume: u64)
    ensures
        volume == settings.master_volume * settings.sfx_volume,
{
    mixed_volume(settings.master_volume, settings.sfx_volume)
}

/// With both volumes at most 100%, the mix is at most full volume.
pub proof fn lemma_mixed_volume_bounded(master_volume: u32, channel_volume: u32)
    requires
        master_volume <= 100,
        channel_volume <= 100,
    ensures
        master_volume * channel_volume <= 10000,
{
    assert(master_volume * channel_volume <= 100 * 100) by (nonlinear_arith)
        requires master_volume <= 100, channel_volume <= 100;
}

} // verus!
