//! The user's configuration of easy motion.

use vstd::prelude::*;

verus! {

/// The easy motion section of a settings file, where every entry may be
/// missing.
#[derive(Clone, Debug, PartialEq, Eq)]
pub struct EasyMotionContent {
    pub enabled: Option<bool>,
    pub keys: Option<String>,
}

/// The part of a settings file that easy motion reads.
#[derive(Clone, Debug, PartialEq, Eq)]
pub struct SettingsContent {
    pub easy_motion: Option<EasyMotionContent>,
}

impl SettingsContent {
    /// Whether the settings, with their defaults merged in, have every entry.
    pub open spec fn is_complete(self) -> bool {
        self.easy_motion matches Some(content) && content.enabled is Some && content.keys is Some
    }
}

/// The configuration of easy motion.
#[derive(Clone, Debug, PartialEq, Eq)]
pub struct EasyMotionSettings {
    pub enabled: bool,
    /// The characters that labels are made of.
    pub keys: String,
}

impl EasyMotionSettings {
    /// Reads the configuration from complete settings.
    pub fn from_settings(content: &SettingsContent) -> (settings: Self)
        requires
            content.is_complete(),
        ensures
            content.easy_motion->0.enabled == Some(settings.enabled),
            settings.keys@ == content.easy_motion->0.keys->0@,
    {
        let easy_motion = content.easy_motion.as_ref().unwrap();
        EasyMotionSettings {
            enabled: easy_motion.enabled.unwrap(),
            keys: easy_motion.keys.as_ref().unwrap().clone(),
        }
    }
}

/// Settings are complete exactly if they say whether easy motion is enabled
/// and which keys labels are made of, whatever they say.
pub proof fn complete_settings_have_every_entry(content: SettingsContent)
    ensures
        content.is_complete() <==> content.easy_motion is Some && content.easy_motion->0.enabled
            is Some && content.easy_motion->0.keys is Some,
{
}

} // verus!
