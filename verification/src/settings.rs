//! User settings: the volume step, its default and its accepted range.

use vstd::prelude::*;
use vstd::string::StringExecFns;

verus! {

/// Step used until the user picks another one.
pub const DEFAULT_STEP: u8 = 2;

/// Smallest step that `set_setting` stores.
pub const MIN_STEP: u8 = 1;

/// Largest step that `set_setting` stores.
pub const MAX_STEP: u8 = 10;

/// Persisted user settings.
#[derive(Clone, Copy, Debug, PartialEq, Eq, Structural)]
pub struct Settings {
    /// Volume change, in percent points, of one wheel notch.
    pub step: u8,
}

impl Default for Settings {
    fn default() -> (s: Self)
        ensures
            s.step == DEFAULT_STEP,
    {
        Settings { step: DEFAULT_STEP }
    }
}

/// Why a settings change was refused.
#[derive(Clone, Copy, Debug, PartialEq, Eq, Structural)]
pub enum SettingsError {
    /// The key names no setting.
    UnknownSetting,
}

impl SettingsError {
    /// The text shown to the user for this error.
    pub fn message(&self) -> (m: String)
        ensures
            m@ == "Unknown setting"@,
    {
        match self {
            SettingsError::UnknownSetting => String::from_str("Unknown setting"),
        }
    }
}

/// The key under which the volume step is set.
pub open spec fn is_step_key(key: Seq<char>) -> bool {
    key == "step"@
}

/// `value` clamped into `MIN_STEP..=MAX_STEP`.
pub open spec fn clamp_step(value: int) -> int {
    if value < MIN_STEP {
        MIN_STEP as int
    } else if value > MAX_STEP {
        MAX_STEP as int
    } else {
        value
    }
}

impl Settings {
    /// Sets the setting named `key` to `value`. Only `"step"` is known; its
    /// value is clamped into `MIN_STEP..=MAX_STEP`. On success the new
    /// settings are returned; an unknown key leaves the settings unchanged.
    pub fn set(&mut self, key: &String, value: u8) -> (r: Result<Settings, SettingsError>)
        ensures
            is_step_key(key@) ==> final(self).step == clamp_step(value as int) && r == Ok::<
                Settings,
                SettingsError,
            >(*final(self)),
            !is_step_key(key@) ==> *final(self) == *old(self) && r == Err::<
                Settings,
                SettingsError,
            >(SettingsError::UnknownSetting),
    {
        let step_key = String::from_str("step");
        if *key != step_key {
            return Err(SettingsError::UnknownSetting);
        }
        self.step = if value < MIN_STEP {
            MIN_STEP
        } else if value > MAX_STEP {
            MAX_STEP
        } else {
            value
        };
        Ok(*self)
    }
}

/// The settings to start with, given what was parsed from the settings file:
/// the parsed settings when the file was read and parsed, else the defaults.
pub fn load_settings(parsed: Option<Settings>) -> (s: Settings)
    ensures
        s == (match parsed {
            Some(p) => p,
            None => Settings { step: DEFAULT_STEP },
        }),
{
    match parsed {
        Some(p) => p,
        None => Settings::default(),
    }
}

/// Law: the stored step is the value clamped into `1..=10`: values in range are
/// kept, smaller ones become 1, larger ones 10; and the only key accepted is
/// the four characters `step`.
pub proof fn law_step_is_clamped(value: u8, key: Seq<char>)
    ensures
        1 <= clamp_step(value as int) <= 10,
        1 <= value <= 10 ==> clamp_step(value as int) == value,
        value < 1 ==> clamp_step(value as int) == 1,
        value > 10 ==> clamp_step(value as int) == 10,
        is_step_key(key) <==> key =~= seq!['s', 't', 'e', 'p'],
{
    reveal_strlit("step");
    assert("step"@ =~= seq!['s', 't', 'e', 'p']);
}


} // verus!
