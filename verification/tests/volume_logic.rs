use volume_app::controller::{AppModel, HideDecision};
use volume_app::geometry::{
    bottom_margin, is_cursor_over_window, is_point_over_taskbar, MonitorInfo, Point, Rect,
    EDGE_MARGIN, OSD_BOTTOM_MARGIN, OSD_HEIGHT, OSD_WIDTH, PANEL_HEIGHT, PANEL_WIDTH,
};
use volume_app::hook::{hook_action, wheel_delta, HookAction, MouseMessage};
use volume_app::settings::{load_settings, Settings, SettingsError};
use volume_app::volume::{notch_volume, AudioState};

fn model() -> AppModel {
    AppModel::new(Settings::default(), Some(AudioState { volume: 40, muted: true }))
}

#[test]
fn default_settings_step_is_two() {
    assert_eq!(Settings::default(), Settings { step: 2 });
}

#[test]
fn load_settings_falls_back_to_default() {
    assert_eq!(load_settings(None), Settings { step: 2 });
    assert_eq!(load_settings(Some(Settings { step: 7 })), Settings { step: 7 });
}

#[test]
fn set_step_clamps_into_range() {
    let mut s = Settings::default();
    let key = "step".to_string();
    assert_eq!(s.set(&key, 0), Ok(Settings { step: 1 }));
    assert_eq!(s.set(&key, 255), Ok(Settings { step: 10 }));
    assert_eq!(s.set(&key, 5), Ok(Settings { step: 5 }));
    assert_eq!(s, Settings { step: 5 });
}

#[test]
fn unknown_setting_is_refused_and_changes_nothing() {
    let mut s = Settings { step: 4 };
    let r = s.set(&"volume".to_string(), 3);
    assert_eq!(r, Err(SettingsError::UnknownSetting));
    assert_eq!(s, Settings { step: 4 });
    assert_eq!(SettingsError::UnknownSetting.message(), "Unknown setting");
}

#[test]
fn notch_snaps_then_steps() {
    assert_eq!(notch_volume(51, 2, true), 54);
    assert_eq!(notch_volume(51, 2, false), 50);
    assert_eq!(notch_volume(50, 3, false), 48);
    assert_eq!(notch_volume(50, 3, true), 54);
    assert_eq!(notch_volume(44, 10, true), 50);
    assert_eq!(notch_volume(45, 10, true), 60);
}

#[test]
fn notch_stays_in_range() {
    assert_eq!(notch_volume(99, 10, true), 100);
    assert_eq!(notch_volume(100, 2, true), 100);
    assert_eq!(notch_volume(3, 10, false), 0);
    assert_eq!(notch_volume(0, 1, false), 0);
    assert_eq!(notch_volume(255, 255, true), 100);
}

#[test]
fn notch_round_trip_on_grid() {
    for step in 1u8..=10 {
        let mut v = 0u8;
        while v <= 100 {
            if v as u16 + step as u16 <= 100 {
                assert_eq!(notch_volume(notch_volume(v, step, true), step, false), v);
            }
            if step <= v {
                assert_eq!(notch_volume(notch_volume(v, step, false), step, true), v);
            }
            v += step;
        }
    }
}

#[test]
fn notch_up_raises_down_lowers() {
    for step in 1u8..=10 {
        for v in 0u8..=100 {
            let up = notch_volume(v, step, true);
            let down = notch_volume(v, step, false);
            assert!(up <= 100);
            if v < 100 {
                assert!(up > v);
            }
            assert!(down <= v);
            if v > 0 {
                assert!(down < v);
            }
            assert!(up == 100 || up % step == 0);
            assert!(down == 0 || down % step == 0);
        }
    }
}

#[test]
fn wheel_delta_reads_signed_high_word() {
    assert_eq!(wheel_delta(0x0078_0000), 120);
    assert_eq!(wheel_delta(0xFF88_0000), -120);
    assert_eq!(wheel_delta(0x0000_FFFF), 0);
    assert_eq!(wheel_delta(0x8000_0000), -32768);
    assert_eq!(wheel_delta(0x7FFF_1234), 32767);
}

#[test]
fn hook_action_over_taskbar() {
    assert_eq!(
        hook_action(0, true, MouseMessage::Wheel, 0x0078_0000),
        HookAction::ChangeVolume { increase: true }
    );
    assert_eq!(
        hook_action(0, true, MouseMessage::Wheel, 0xFF88_0000),
        HookAction::ChangeVolume { increase: false }
    );
    assert_eq!(hook_action(0, true, MouseMessage::Wheel, 0x0000_0001), HookAction::Ignore);
    assert_eq!(hook_action(3, true, MouseMessage::MiddleButtonDown, 0), HookAction::ToggleMute);
    assert_eq!(hook_action(0, true, MouseMessage::Other, 0x0078_0000), HookAction::Ignore);
}

#[test]
fn hook_action_elsewhere_does_nothing() {
    assert_eq!(hook_action(-1, true, MouseMessage::Wheel, 0x0078_0000), HookAction::Ignore);
    assert_eq!(hook_action(0, false, MouseMessage::Wheel, 0x0078_0000), HookAction::Ignore);
    assert_eq!(hook_action(0, false, MouseMessage::MiddleButtonDown, 0), HookAction::Ignore);
}

fn monitor() -> MonitorInfo {
    MonitorInfo {
        monitor: Rect { left: 0, top: 0, right: 1920, bottom: 1080 },
        work: Rect { left: 0, top: 0, right: 1920, bottom: 1040 },
    }
}

#[test]
fn point_over_taskbar() {
    assert!(is_point_over_taskbar(Point { x: 100, y: 1050 }, Some(monitor())));
    assert!(is_point_over_taskbar(Point { x: 0, y: 1040 }, Some(monitor())));
    assert!(!is_point_over_taskbar(Point { x: 100, y: 1039 }, Some(monitor())));
    assert!(!is_point_over_taskbar(Point { x: 1920, y: 1050 }, Some(monitor())));
    assert!(!is_point_over_taskbar(Point { x: 100, y: 1080 }, Some(monitor())));
    assert!(!is_point_over_taskbar(Point { x: 100, y: 1050 }, None));
}

#[test]
fn no_taskbar_when_work_area_is_whole_monitor() {
    let r = Rect { left: 0, top: 0, right: 800, bottom: 600 };
    let info = MonitorInfo { monitor: r, work: r };
    for (x, y) in [(0, 0), (799, 599), (400, 300), (800, 600)] {
        assert!(!is_point_over_taskbar(Point { x, y }, Some(info)));
    }
}

#[test]
fn cursor_over_window_needs_both_values() {
    let b = Rect { left: 10, top: 20, right: 310, bottom: 100 };
    assert!(is_cursor_over_window(Some(Point { x: 10, y: 20 }), Some(b)));
    assert!(!is_cursor_over_window(Some(Point { x: 310, y: 50 }), Some(b)));
    assert!(!is_cursor_over_window(None, Some(b)));
    assert!(!is_cursor_over_window(Some(Point { x: 20, y: 50 }), None));
}

#[test]
fn bottom_margin_depends_on_size() {
    assert_eq!(bottom_margin(OSD_WIDTH, OSD_HEIGHT), OSD_BOTTOM_MARGIN);
    assert_eq!(bottom_margin(PANEL_WIDTH, PANEL_HEIGHT), EDGE_MARGIN);
    assert_eq!(bottom_margin(OSD_WIDTH, PANEL_HEIGHT), 20);
    assert_eq!(bottom_margin(300, 80), 0);
}

#[test]
fn start_up_state() {
    let m = AppModel::new(Settings { step: 5 }, None);
    assert_eq!(m.audio, AudioState { volume: 50, muted: false });
    assert_eq!(m.settings, Settings { step: 5 });
    assert!(!m.hovering && !m.settings_mode);
    assert_eq!(m.hide_generation, 0);
    assert_eq!(model().audio, AudioState { volume: 40, muted: true });
}

#[test]
fn read_back_what_was_written() {
    let mut m = model();
    assert_eq!(m.set_volume(73), AudioState { volume: 73, muted: true });
    assert_eq!(m.get_volume(None), 73);
    assert_eq!(m.set_volume(200), AudioState { volume: 100, muted: true });
    assert_eq!(m.get_volume(None), 100);
    m.set_mute(false);
    assert!(!m.get_mute(None));
    assert_eq!(m.get_volume(Some(AudioState { volume: 12, muted: true })), 12);
    assert!(m.get_mute(None));
}

#[test]
fn wheel_moves_volume_and_unmutes() {
    let mut m = model();
    assert_eq!(m.on_wheel(true), AudioState { volume: 42, muted: false });
    m.toggle_mute();
    assert_eq!(m.on_wheel(false), AudioState { volume: 40, muted: false });
    m.settings = Settings { step: 10 };
    m.audio.volume = 95;
    assert_eq!(m.on_wheel(true).volume, 100);
}

#[test]
fn toggle_mute_twice_restores() {
    let mut m = model();
    let before = m;
    assert!(!m.toggle_mute());
    assert!(m.toggle_mute());
    assert_eq!(m, before);
}

#[test]
fn set_setting_through_model() {
    let mut m = model();
    assert_eq!(m.set_setting(&"step".to_string(), 12), Ok(Settings { step: 10 }));
    assert_eq!(m.get_settings(), Settings { step: 10 });
    assert_eq!(m.set_setting(&"Step".to_string(), 3), Err(SettingsError::UnknownSetting));
    assert_eq!(m.get_settings(), Settings { step: 10 });
}

#[test]
fn settings_mode_follows_window_height() {
    let mut m = model();
    m.resize_window(PANEL_HEIGHT);
    assert!(m.settings_mode);
    m.resize_window(OSD_HEIGHT);
    assert!(!m.settings_mode);
    m.open_settings();
    assert!(m.settings_mode);
    assert!(m.show_osd());
    assert!(!m.settings_mode);
    assert!(!m.show_osd());
    m.open_settings();
    assert!(m.focus_lost());
    assert!(!m.focus_lost());
}

#[test]
fn hover_restarts_timer_only_outside_settings() {
    let mut m = model();
    assert!(!m.set_hover(true));
    assert!(m.hovering);
    assert!(m.set_hover(false));
    m.open_settings();
    assert!(!m.set_hover(false));
}

#[test]
fn only_latest_timer_acts() {
    let mut m = model();
    let first = m.next_hide_generation();
    let second = m.next_hide_generation();
    assert_eq!((first, second), (1, 2));
    assert_eq!(m.on_hide_timer(first, Some(false)), HideDecision::Ignore);
    assert_eq!(m.on_hide_timer(second, Some(false)), HideDecision::Hide);
    assert_eq!(m.on_hide_timer(second, None), HideDecision::Ignore);
    m.set_hover(true);
    assert_eq!(m.on_hide_timer(second, Some(true)), HideDecision::Restart);
    assert_eq!(m.on_hide_timer(second, Some(false)), HideDecision::Hide);
    m.open_settings();
    assert_eq!(m.on_hide_timer(second, Some(false)), HideDecision::Ignore);
}

#[test]
fn timer_numbers_wrap() {
    let mut m = model();
    m.hide_generation = u64::MAX;
    assert_eq!(m.next_hide_generation(), 0);
    assert_eq!(m.hide_generation, 0);
}
