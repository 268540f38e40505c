//! The sound switch.

use vstd::prelude::*;
use crate::entity::Settings;

verus! {

/// The icon on the sound button.
#[derive(Clone, Copy, PartialEq, Eq, Structural, Debug)]
pub enum AudioIcon {
    VoiceOn,
    VoiceOff,
}

/// The icon after the button showed `icon` and was or was not clicked: a
/// click turns it over.
pub open spec fn icon_after(icon: AudioIcon, clicked: bool) -> AudioIcon {
    if !clicked {
        icon
    } else if icon == AudioIcon::VoiceOn {
        AudioIcon::VoiceOff
    } else {
        AudioIcon::VoiceOn
    }
}

/// Handles the sound button. A click on the button that shows sound as on
/// turns sound off, a click on any other turns it on; without a click nothing
/// changes. Returns the icon to show.
pub fn setting_audio_system(settings: &mut Settings, icon: AudioIcon, clicked: bool) -> (shown:
    AudioIcon)
    ensures
        shown == icon_after(icon, clicked),
        final(settings).mute == if clicked {
            icon == AudioIcon::VoiceOn
        } else {
            old(settings).mute
        },
{
    if !clicked {
        return icon;
    }
    if icon == AudioIcon::VoiceOn {
        settings.mute = true;
        AudioIcon::VoiceOff
    } else {
        settings.mute = false;
        AudioIcon::VoiceOn
    }
}

} // verus!
