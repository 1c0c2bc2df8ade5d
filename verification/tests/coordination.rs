use langtip::config::AppConfig;
use langtip::coordinator::CoordinatorState;
use langtip::coordinator::LayoutEventOutcome;
use langtip::coordinator::advance_fades;
use langtip::coordinator::should_check_config;
use langtip::indicator::IndicatorWindow;
use langtip::indicator::Position;
use langtip::keyboard_hook::LayoutInfo;
use langtip::config::SoundConfig;
use langtip::monitors::MonitorInfo;
use langtip::sound::layout_sound_params;

fn test_monitor() -> MonitorInfo {
    MonitorInfo {
        x: 0,
        y: 0,
        width: 1920,
        height: 1080,
        work_x: 0,
        work_y: 0,
        work_width: 1920,
        work_height: 1040,
        is_primary: true,
    }
}

fn setup() -> (CoordinatorState, Vec<IndicatorWindow>) {
    let config = AppConfig::default();
    let mut windows = vec![
        IndicatorWindow::new(Position::TopLeft, &config, test_monitor()),
        IndicatorWindow::new(Position::Center, &config, test_monitor()),
    ];
    let st = CoordinatorState::new(0, "EN".to_string(), &config);
    for w in windows.iter_mut() {
        w.show();
    }
    (st, windows)
}

fn ru() -> LayoutInfo {
    LayoutInfo { name: "RU".to_string(), is_russian: true }
}

#[test]
fn startup_state() {
    let config = AppConfig::default();
    let st = CoordinatorState::new(7, "EN".to_string(), &config);
    assert!(st.visible);
    assert!(st.indicators_shown);
    assert_eq!(st.last_layout, "EN".to_string());
    assert_eq!(st.last_show_at_ms, 7);
    assert_eq!(st.last_hide_at_ms, None);
    assert_eq!(st.hide_cooldown_ms, 500);
    assert_eq!(st.hide_delay_ms, 5000);
}

#[test]
fn layout_change_updates_text_and_shows() {
    let (mut st, mut windows) = setup();
    let (outcome, effects) = st.handle_layout_event(&mut windows, 100, &ru());
    assert_eq!(outcome, LayoutEventOutcome::Changed);
    assert_eq!(st.last_layout, "RU".to_string());
    assert_eq!(st.last_show_at_ms, 100);
    assert!(st.indicators_shown);
    for w in &windows {
        assert_eq!(w.text, "RU".to_string());
        assert!(w.is_russian);
        assert_eq!(w.get_target_alpha(), 255);
    }
    for fx in &effects {
        assert!(fx.redraw);
        assert!(fx.reveal);
        assert!(fx.raise_topmost);
    }
}

#[test]
fn repeated_layout_is_no_change() {
    let (mut st, mut windows) = setup();
    let en = LayoutInfo { name: "EN".to_string(), is_russian: false };
    let (outcome, effects) = st.handle_layout_event(&mut windows, 100, &en);
    assert_eq!(outcome, LayoutEventOutcome::NoChange);
    assert_eq!(st.last_show_at_ms, 0);
    for fx in &effects {
        assert!(!fx.redraw && !fx.reveal && !fx.raise_topmost && !fx.conceal);
        assert_eq!(fx.apply_alpha, None);
    }
}

#[test]
fn event_within_hide_cooldown_is_dropped() {
    let (mut st, mut windows) = setup();
    // Auto-hide at t = 5000 (default delay), cooldown is 500 ms.
    let hid = st.auto_hide(&mut windows, 5000);
    assert!(hid);
    let text_before = windows[0].text.clone();
    let show_before = st.last_show_at_ms;
    let (outcome, _) = st.handle_layout_event(&mut windows, 5400, &ru());
    assert_eq!(outcome, LayoutEventOutcome::DroppedCooldown);
    assert_eq!(st.last_layout, "EN".to_string());
    assert_eq!(st.last_show_at_ms, show_before);
    assert_eq!(windows[0].text, text_before);
    // After the cooldown the same event goes through.
    let (outcome2, _) = st.handle_layout_event(&mut windows, 5500, &ru());
    assert_eq!(outcome2, LayoutEventOutcome::Changed);
}

#[test]
fn layout_change_while_invisible_updates_but_does_not_show() {
    let (mut st, mut windows) = setup();
    st.apply_visibility(&mut windows, 10, false);
    // Fade everything out past the cooldown window.
    let (outcome, _) = st.handle_layout_event(&mut windows, 600, &ru());
    assert_eq!(outcome, LayoutEventOutcome::Changed);
    assert!(!st.indicators_shown);
    for w in &windows {
        assert_eq!(w.text, "RU".to_string());
        assert_eq!(w.get_target_alpha(), 0);
    }
}

#[test]
fn visibility_toggle_off_and_on() {
    let (mut st, mut windows) = setup();
    let effects = st.apply_visibility(&mut windows, 50, false);
    assert!(!st.visible);
    assert!(!st.indicators_shown);
    assert_eq!(st.last_hide_at_ms, Some(50));
    for w in &windows {
        assert_eq!(w.get_target_alpha(), 0);
    }
    for fx in &effects {
        assert!(!fx.reveal && !fx.conceal);
    }
    let effects_on = st.apply_visibility(&mut windows, 80, true);
    assert!(st.visible);
    assert!(st.indicators_shown);
    assert_eq!(st.last_show_at_ms, 80);
    for w in &windows {
        assert_eq!(w.get_target_alpha(), 255);
    }
    for fx in &effects_on {
        assert!(fx.reveal && fx.raise_topmost && fx.redraw);
    }
}

#[test]
fn visibility_unchanged_is_no_op() {
    let (mut st, mut windows) = setup();
    let show_before = st.last_show_at_ms;
    st.apply_visibility(&mut windows, 50, true);
    assert!(st.visible);
    assert_eq!(st.last_show_at_ms, show_before);
    for w in &windows {
        assert_eq!(w.get_target_alpha(), 255);
    }
}

#[test]
fn auto_hide_fires_exactly_at_delay() {
    let (mut st, mut windows) = setup();
    assert!(!st.auto_hide(&mut windows, 4999));
    assert!(st.indicators_shown);
    assert!(st.auto_hide(&mut windows, 5000));
    assert!(!st.indicators_shown);
    assert_eq!(st.last_hide_at_ms, Some(5000));
    for w in &windows {
        assert_eq!(w.get_target_alpha(), 0);
    }
}

#[test]
fn auto_hide_never_rehides() {
    let (mut st, mut windows) = setup();
    assert!(st.auto_hide(&mut windows, 5000));
    // Already hidden: no further hide, and the cooldown moment stays.
    assert!(!st.auto_hide(&mut windows, 20000));
    assert_eq!(st.last_hide_at_ms, Some(5000));
}

#[test]
fn fades_advance_every_window() {
    let (_, mut windows) = setup();
    let effects = advance_fades(&mut windows);
    assert_eq!(effects.len(), windows.len());
    for (w, fx) in windows.iter().zip(effects.iter()) {
        assert_eq!(w.get_alpha(), 25);
        assert_eq!(fx.apply_alpha, Some(25));
        assert!(!fx.conceal);
    }
    // A settled window yields no effect.
    let mut settled = windows;
    for w in settled.iter_mut() {
        while w.is_animating() {
            w.update_fade();
        }
    }
    let effects2 = advance_fades(&mut settled);
    for fx in &effects2 {
        assert_eq!(fx.apply_alpha, None);
    }
}

#[test]
fn config_reload_updates_hide_delay() {
    let (mut st, mut windows) = setup();
    let mut config = AppConfig::default();
    config.hide_delay_ms = 1000;
    st.apply_config(&config);
    assert_eq!(st.hide_delay_ms, 1000);
    // The shorter delay governs the next auto-hide.
    assert!(!st.auto_hide(&mut windows, 999));
    assert!(st.auto_hide(&mut windows, 1000));
}

#[test]
fn reseed_after_reload_applies_current_layout() {
    let (mut st, mut windows) = setup();
    let effects = st.reseed_after_reload(&mut windows, 300, &ru(), true);
    assert_eq!(st.last_layout, "RU".to_string());
    assert_eq!(st.last_show_at_ms, 300);
    assert!(st.indicators_shown);
    for w in &windows {
        assert_eq!(w.text, "RU".to_string());
        assert_eq!(w.get_target_alpha(), 255);
    }
    for fx in &effects {
        assert!(fx.redraw && fx.reveal);
    }
    let effects_hidden = st.reseed_after_reload(&mut windows, 400, &ru(), false);
    assert!(!st.indicators_shown);
    for fx in &effects_hidden {
        assert!(fx.redraw && !fx.reveal);
    }
}

#[test]
fn config_poll_interval() {
    assert!(!should_check_config(1999, 0, 2000));
    assert!(should_check_config(2000, 0, 2000));
    assert!(should_check_config(5000, 2000, 2000));
    assert!(!should_check_config(3999, 2000, 2000));
}

#[test]
fn sound_decision() {
    let c = SoundConfig::default();
    assert_eq!(layout_sound_params(false, &c), Some((800, 50)));
    assert_eq!(layout_sound_params(true, &c), Some((600, 50)));
    let mut off = SoundConfig::default();
    off.enabled = false;
    assert_eq!(layout_sound_params(true, &off), None);
}
