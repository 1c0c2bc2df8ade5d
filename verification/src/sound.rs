//! Sound cue decisions.
//!
//! Picks the beep frequency and duration for a layout change from the sound
//! settings; actually playing the beep happens outside the library.

use crate::config::SoundConfig;
use vstd::prelude::*;

verus! {

/// The (frequency, duration) pair to play for a layout change, or nothing
/// when sound is disabled: the Russian layout gets its own frequency,
/// every other layout the English one.
pub open spec fn spec_layout_sound(is_russian: bool, c: SoundConfig) -> Option<(u32, u32)> {
    if !c.enabled {
        Option::None
    } else if is_russian {
        Option::Some((c.frequency_ru, c.duration_ms))
    } else {
        Option::Some((c.frequency_en, c.duration_ms))
    }
}

/// Decides which beep a layout change triggers.
pub fn layout_sound_params(is_russian: bool, config: &SoundConfig) -> (r: Option<(u32, u32)>)
    ensures
        r == spec_layout_sound(is_russian, *config),
{
    if !config.enabled {
        return None;
    }
    let freq = if is_russian {
        config.frequency_ru
    } else {
        config.frequency_en
    };
    Some((freq, config.duration_ms))
}

} // verus!
