//! The application state and the decisions taken on each event: commands from
//! the display, wheel and click events from the taskbar hook, the auto-hide
//! timer and focus changes. The shell performs what these decisions ask for
//! (writing the audio endpoint, moving or hiding the window, saving the
//! settings, starting a timer) and hands the outcome back.

use vstd::prelude::*;

use crate::geometry::OSD_HEIGHT;
use crate::settings::{Settings, SettingsError, is_step_key, clamp_step};
use crate::volume::{AudioState, FALLBACK_VOLUME, MAX_VOLUME, notch, notch_volume};

verus! {

/// What the auto-hide timer asks for when it fires.
#[derive(Clone, Copy, Debug, PartialEq, Eq, Structural)]
pub enum HideDecision {
    /// The timer is stale, the settings panel is open, or there is no window:
    /// do nothing.
    Ignore,
    /// The pointer rests on the display: start the timer again.
    Restart,
    /// Hide the display.
    Hide,
}

/// The state the application keeps between events.
#[derive(Clone, Copy, Debug, PartialEq, Eq, Structural)]
pub struct AppModel {
    /// The user settings in force.
    pub settings: Settings,
    /// The audio state last read or written.
    pub audio: AudioState,
    /// Whether the display reported the pointer over it.
    pub hovering: bool,
    /// Whether the window shows the settings panel rather than the volume
    /// display.
    pub settings_mode: bool,
    /// Number of the latest auto-hide timer; a timer carrying another number
    /// is stale.
    pub hide_generation: u64,
}

/// The audio state to start with: what was read, else the fallback volume,
/// unmuted.
pub open spec fn initial_audio(reading: Option<AudioState>) -> AudioState {
    match reading {
        Some(a) => a,
        None => AudioState { volume: FALLBACK_VOLUME, muted: false },
    }
}

/// The smaller of `volume` and `MAX_VOLUME`.
pub open spec fn capped_volume(volume: u8) -> u8 {
    if volume < MAX_VOLUME {
        volume
    } else {
        MAX_VOLUME
    }
}

/// The timer number that follows `g`, wrapping to zero after the largest.
pub open spec fn next_generation(g: u64) -> u64 {
    if g == u64::MAX {
        0
    } else {
        (g + 1) as u64
    }
}

impl AppModel {
    /// The audio state respects its bounds.
    pub open spec fn wf(self) -> bool {
        self.audio.wf()
    }

    /// The state after an audio reading: replaced by the reading when there is
    /// one, unchanged otherwise.
    pub open spec fn spec_refreshed(self, reading: Option<AudioState>) -> AppModel {
        match reading {
            Some(a) => AppModel { audio: a, ..self },
            None => self,
        }
    }

    /// The state after the user picked `volume` on the display.
    pub open spec fn spec_with_volume(self, volume: u8) -> AppModel {
        AppModel { audio: AudioState { volume: capped_volume(volume), ..self.audio }, ..self }
    }

    /// The state after the user set the mute state.
    pub open spec fn spec_with_mute(self, muted: bool) -> AppModel {
        AppModel { audio: AudioState { muted, ..self.audio }, ..self }
    }

    /// The state after one wheel notch over the taskbar: the volume moves one
    /// notch and the audio is unmuted.
    pub open spec fn spec_after_wheel(self, increase: bool) -> AppModel {
        AppModel {
            audio: AudioState {
                volume: notch(self.audio.volume as int, self.settings.step as int, increase) as u8,
                muted: false,
            },
            ..self
        }
    }

    /// The state after a middle click over the taskbar.
    pub open spec fn spec_after_toggle_mute(self) -> AppModel {
        AppModel { audio: AudioState { muted: !self.audio.muted, ..self.audio }, ..self }
    }

    /// What the auto-hide timer numbered `generation` asks for, given whether
    /// the pointer is over the window (`None` when there is no window).
    pub open spec fn spec_hide_decision(
        self,
        generation: u64,
        cursor_over_window: Option<bool>,
    ) -> HideDecision {
        if generation == self.hide_generation && !self.settings_mode {
            match cursor_over_window {
                Some(over) => if self.hovering && over {
                    HideDecision::Restart
                } else {
                    HideDecision::Hide
                },
                None => HideDecision::Ignore,
            }
        } else {
            HideDecision::Ignore
        }
    }

    /// Whether the pointer reporting `hovering` starts the auto-hide timer
    /// again: when the pointer left and the settings panel is not shown.
    pub open spec fn spec_restarts_timer(self, hovering: bool) -> bool {
        !hovering && !self.settings_mode
    }

    /// The state at start-up, from the loaded settings and the audio reading
    /// when the endpoint could be read.
    pub fn new(settings: Settings, reading: Option<AudioState>) -> (m: AppModel)
        ensures
            m == (AppModel {
                settings,
                audio: initial_audio(reading),
                hovering: false,
                settings_mode: false,
                hide_generation: 0,
            }),
            (reading matches Some(a) ==> a.wf()) ==> m.wf(),
    {
        let audio = match reading {
            Some(a) => a,
            None => AudioState { volume: FALLBACK_VOLUME, muted: false },
        };
        AppModel { settings, audio, hovering: false, settings_mode: false, hide_generation: 0 }
    }

    /// Takes in an audio reading when there is one.
    fn refresh(&mut self, reading: Option<AudioState>)
        ensures
            *final(self) == old(self).spec_refreshed(reading),
    {
        if let Some(a) = reading {
            self.audio = a;
        }
    }

    /// The volume to report, after taking in the reading when there is one.
    pub fn get_volume(&mut self, reading: Option<AudioState>) -> (v: u8)
        ensures
            *final(self) == old(self).spec_refreshed(reading),
            v == final(self).audio.volume,
            old(self).wf() && (reading matches Some(a) ==> a.wf()) ==> final(self).wf(),
    {
        self.refresh(reading);
        self.audio.volume
    }

    /// The mute state to report, after taking in the reading when there is
    /// one.
    pub fn get_mute(&mut self, reading: Option<AudioState>) -> (muted: bool)
        ensures
            *final(self) == old(self).spec_refreshed(reading),
            muted == final(self).audio.muted,
            old(self).wf() && (reading matches Some(a) ==> a.wf()) ==> final(self).wf(),
    {
        self.refresh(reading);
        self.audio.muted
    }

    /// Sets the volume, capped at `MAX_VOLUME`; returns the audio state to
    /// write to the endpoint.
    pub fn set_volume(&mut self, volume: u8) -> (a: AudioState)
        ensures
            *final(self) == old(self).spec_with_volume(volume),
            a == final(self).audio,
            final(self).wf(),
    {
        self.audio.volume = if volume < MAX_VOLUME {
            volume
        } else {
            MAX_VOLUME
        };
        self.audio
    }

    /// Sets the mute state; returns the audio state to write to the endpoint.
    pub fn set_mute(&mut self, muted: bool) -> (a: AudioState)
        ensures
            *final(self) == old(self).spec_with_mute(muted),
            a == final(self).audio,
            old(self).wf() ==> final(self).wf(),
    {
        self.audio.muted = muted;
        self.audio
    }

    /// The settings in force.
    pub fn get_settings(&self) -> (s: Settings)
        ensures
            s == self.settings,
    {
        self.settings
    }

    /// Changes a setting; see `Settings::set`. On success the shell saves the
    /// returned settings.
    pub fn set_setting(&mut self, key: &String, value: u8) -> (r: Result<Settings, SettingsError>)
        ensures
            is_step_key(key@) ==> *final(self) == (AppModel {
                settings: Settings { step: clamp_step(value as int) as u8 },
                ..*old(self)
            }) && r == Ok::<Settings, SettingsError>(final(self).settings),
            !is_step_key(key@) ==> *final(self) == *old(self) && r == Err::<
                Settings,
                SettingsError,
            >(SettingsError::UnknownSetting),
    {
        self.settings.set(key, value)
    }

    /// The display asked for a new window size: a window taller than the
    /// volume display shows the settings panel.
    pub fn resize_window(&mut self, height: i32)
        ensures
            *final(self) == (AppModel { settings_mode: height > OSD_HEIGHT, ..*old(self) }),
    {
        self.settings_mode = height > OSD_HEIGHT;
    }

    /// The display reports whether the pointer is over it. Returns whether the
    /// auto-hide timer must start again: when the pointer left and the
    /// settings panel is not shown.
    pub fn set_hover(&mut self, hovering: bool) -> (restart_timer: bool)
        ensures
            *final(self) == (AppModel { hovering, ..*old(self) }),
            restart_timer == old(self).spec_restarts_timer(hovering),
    {
        self.hovering = hovering;
        !hovering && !self.settings_mode
    }

    /// The user opened the settings panel from the tray menu.
    pub fn open_settings(&mut self)
        ensures
            *final(self) == (AppModel { settings_mode: true, ..*old(self) }),
    {
        self.settings_mode = true;
    }

    /// The volume display is about to be shown. Returns whether the settings
    /// panel was shown, in which case the shell shrinks the window back and
    /// tells the display; the settings panel is closed either way.
    pub fn show_osd(&mut self) -> (was_settings: bool)
        ensures
            *final(self) == (AppModel { settings_mode: false, ..*old(self) }),
            was_settings == old(self).settings_mode,
    {
        let was = self.settings_mode;
        self.settings_mode = false;
        was
    }

    /// The window lost the focus. Returns whether the settings panel was
    /// shown, in which case the shell hides the window and tells the display;
    /// the settings panel is closed either way.
    pub fn focus_lost(&mut self) -> (was_settings: bool)
        ensures
            *final(self) == (AppModel { settings_mode: false, ..*old(self) }),
            was_settings == old(self).settings_mode,
    {
        let was = self.settings_mode;
        self.settings_mode = false;
        was
    }

    /// Starts a new auto-hide timer: every earlier timer becomes stale.
    /// Returns the number the new timer carries.
    pub fn next_hide_generation(&mut self) -> (g: u64)
        ensures
            g == next_generation(old(self).hide_generation),
            *final(self) == (AppModel { hide_generation: g, ..*old(self) }),
    {
        let g = if self.hide_generation == u64::MAX {
            0
        } else {
            self.hide_generation + 1
        };
        self.hide_generation = g;
        g
    }

    /// What the auto-hide timer numbered `generation` asks for; see
    /// `spec_hide_decision`.
    pub fn on_hide_timer(&self, generation: u64, cursor_over_window: Option<bool>) -> (d:
        HideDecision)
        ensures
            d == self.spec_hide_decision(generation, cursor_over_window),
    {
        if generation == self.hide_generation && !self.settings_mode {
            match cursor_over_window {
                Some(over) => if self.hovering && over {
                    HideDecision::Restart
                } else {
                    HideDecision::Hide
                },
                None => HideDecision::Ignore,
            }
        } else {
            HideDecision::Ignore
        }
    }

    /// One wheel notch over the taskbar: moves the volume one notch and
    /// unmutes. Returns the audio state to write to the endpoint.
    pub fn on_wheel(&mut self, increase: bool) -> (a: AudioState)
        requires
            old(self).settings.step >= 1,
        ensures
            *final(self) == old(self).spec_after_wheel(increase),
            a == final(self).audio,
            old(self).wf() ==> final(self).wf(),
    {
        proof {
            crate::volume::law_notch_up_raises(self.audio.volume, self.settings.step);
            crate::volume::law_notch_down_lowers(self.audio.volume, self.settings.step);
        }
        let volume = notch_volume(self.audio.volume, self.settings.step, increase);
        self.audio = AudioState { volume, muted: false };
        self.audio
    }

    /// A middle click over the taskbar: flips the mute state and returns it.
    pub fn toggle_mute(&mut self) -> (muted: bool)
        ensures
            *final(self) == old(self).spec_after_toggle_mute(),
            muted == final(self).audio.muted,
            old(self).wf() ==> final(self).wf(),
    {
        self.audio.muted = !self.audio.muted;
        self.audio.muted
    }
}

/// Law: what the user writes is what a later read without a new reading gives
/// back: the volume set (capped at `MAX_VOLUME`) and the mute state set.
pub proof fn law_read_back(m: AppModel, volume: u8, muted: bool)
    ensures
        m.spec_with_volume(volume).spec_refreshed(None).audio.volume == capped_volume(volume),
        m.spec_with_mute(muted).spec_refreshed(None).audio.muted == muted,
        capped_volume(volume) <= MAX_VOLUME,
        volume <= MAX_VOLUME ==> capped_volume(volume) == volume,
{
}

/// Law: two middle clicks leave the state as it was.
pub proof fn law_toggle_mute_twice(m: AppModel)
    ensures
        m.spec_after_toggle_mute().spec_after_toggle_mute() == m,
{
}

/// Law: a wheel notch always unmutes and keeps the volume within bounds.
pub proof fn law_wheel_unmutes(m: AppModel, increase: bool)
    requires
        m.settings.step >= 1,
        m.wf(),
    ensures
        !m.spec_after_wheel(increase).audio.muted,
        m.spec_after_wheel(increase).wf(),
{
    crate::volume::law_notch_up_raises(m.audio.volume, m.settings.step);
    crate::volume::law_notch_down_lowers(m.audio.volume, m.settings.step);
}

/// Law: only the latest auto-hide timer can act. Once a new timer is started,
/// every other timer number is ignored; the new one acts unless the settings
/// panel is shown or there is no window.
pub proof fn law_only_latest_timer_acts(
    m: AppModel,
    generation: u64,
    cursor_over_window: Option<bool>,
)
    ensures
        ({
            let g = next_generation(m.hide_generation);
            let m2 = AppModel { hide_generation: g, ..m };
            &&& generation != g ==> m2.spec_hide_decision(generation, cursor_over_window)
                == HideDecision::Ignore
            &&& (!m.settings_mode && cursor_over_window is Some) ==> m2.spec_hide_decision(
                g,
                cursor_over_window,
            ) != HideDecision::Ignore
        }),
{
}

/// Law: while the settings panel is shown the window is never hidden by the
/// timer, and the pointer leaving the window starts no timer.
pub proof fn law_settings_panel_stays(
    m: AppModel,
    generation: u64,
    cursor_over_window: Option<bool>,
)
    requires
        m.settings_mode,
    ensures
        m.spec_hide_decision(generation, cursor_over_window) == HideDecision::Ignore,
        !m.spec_restarts_timer(false),
{
}

/// Law: the display is hidden only when the pointer is not resting on it.
pub proof fn law_hide_only_when_not_hovered(m: AppModel, generation: u64, over: bool)
    requires
        m.spec_hide_decision(generation, Some(over)) == HideDecision::Hide,
    ensures
        !(m.hovering && over),
        generation == m.hide_generation,
        !m.settings_mode,
{
}

/// Law: a reading is taken in as it is, and no reading changes nothing: after
/// `get_volume` or `get_mute` with a reading, the audio state is the reading
/// and all else is as before.
pub proof fn law_reading_replaces_audio(m: AppModel, a: AudioState)
    ensures
        m.spec_refreshed(Some(a)).audio == a,
        m.spec_refreshed(Some(a)).settings == m.settings,
        m.spec_refreshed(Some(a)).hovering == m.hovering,
        m.spec_refreshed(Some(a)).settings_mode == m.settings_mode,
        m.spec_refreshed(Some(a)).hide_generation == m.hide_generation,
        m.spec_refreshed(None) == m,
{
}

/// Law: the timer numbered with the latest number, outside the settings
/// panel and with a window, restarts exactly when the display reported the
/// pointer over it and the pointer is within the window, and hides the
/// display otherwise. Any other timer, or no window, does nothing.
pub proof fn law_hide_decision_exactly(m: AppModel, generation: u64, cursor_over_window: Option<
    bool,
>)
    ensures
        (generation != m.hide_generation || m.settings_mode || cursor_over_window is None)
            ==> m.spec_hide_decision(generation, cursor_over_window) == HideDecision::Ignore,
        (generation == m.hide_generation && !m.settings_mode && cursor_over_window
            == Some(true) && m.hovering) ==> m.spec_hide_decision(generation, cursor_over_window)
            == HideDecision::Restart,
        (generation == m.hide_generation && !m.settings_mode && cursor_over_window is Some && !(
        m.hovering && cursor_over_window == Some(true))) ==> m.spec_hide_decision(
            generation,
            cursor_over_window,
        ) == HideDecision::Hide,
{
}

/// Law: the pointer report restarts the timer exactly when the pointer left
/// and the settings panel is not shown.
pub proof fn law_hover_restart_exactly(m: AppModel, hovering: bool)
    ensures
        m.spec_restarts_timer(hovering) <==> (!hovering && !m.settings_mode),
{
}

/// Law: a wheel notch starts from the multiple `k * step` nearest to the
/// volume (halves rounding up), moves one full step, stays within
/// `0..=MAX_VOLUME`, unmutes, and touches nothing else.
pub proof fn law_wheel_moves_one_step(m: AppModel, increase: bool, k: int)
    requires
        m.settings.step >= 1,
        k * m.settings.step - m.settings.step / 2 <= m.audio.volume < k * m.settings.step
            + m.settings.step - m.settings.step / 2,
    ensures
        ({
            let s = m.settings.step as int;
            let m2 = m.spec_after_wheel(increase);
            &&& increase ==> m2.audio.volume == (if k * s + s < 100 {
                k * s + s
            } else {
                100
            })
            &&& !increase ==> m2.audio.volume == (if k * s - s > 0 {
                k * s - s
            } else {
                0
            })
            &&& !m2.audio.muted
            &&& m2.settings == m.settings
            &&& m2.hovering == m.hovering
            &&& m2.settings_mode == m.settings_mode
            &&& m2.hide_generation == m.hide_generation
        }),
{
    crate::volume::law_notch_from_nearest_multiple(m.audio.volume, m.settings.step, k);
}

/// Law: setting the volume stores it capped at `MAX_VOLUME` and keeps the
/// mute state; setting the mute state keeps the volume; a middle click flips
/// the mute state and keeps the volume.
pub proof fn law_writes_touch_one_field(m: AppModel, volume: u8, muted: bool)
    ensures
        m.spec_with_volume(volume).audio.volume == (if volume > 100 {
            100
        } else {
            volume
        }),
        m.spec_with_volume(volume).audio.muted == m.audio.muted,
        m.spec_with_mute(muted).audio == (AudioState { volume: m.audio.volume, muted }),
        m.spec_after_toggle_mute().audio == (AudioState {
            volume: m.audio.volume,
            muted: !m.audio.muted,
        }),
        m.spec_with_volume(volume).settings == m.settings,
        m.spec_with_mute(muted).settings == m.settings,
{
}

/// Law: timer numbers count up by one and wrap to zero after the largest.
pub proof fn law_timer_numbers_count_up(g: u64)
    ensures
        g < u64::MAX ==> next_generation(g) == g + 1,
        g == u64::MAX ==> next_generation(g) == 0,
{
}

/// Law: at start-up the audio state is the reading when there is one, else
/// half volume unmuted.
pub proof fn law_start_up_audio(reading: Option<AudioState>)
    ensures
        reading matches Some(a) ==> initial_audio(reading) == a,
        reading is None ==> initial_audio(reading) == (AudioState { volume: 50, muted: false }),
{
}

} // verus!
