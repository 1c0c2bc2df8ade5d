use langtip::config::AppConfig;
use langtip::indicator::IndicatorWindow;
use langtip::indicator::Position;
use langtip::indicator::calculate_position;
use langtip::indicator::create_indicators;
use langtip::indicator::get_enabled_positions;
use langtip::indicator::indicator_geometry_ok;
use langtip::monitors::MonitorInfo;

fn test_monitor() -> MonitorInfo {
    MonitorInfo {
        x: 0,
        y: 0,
        width: 1920,
        height: 1080,
        work_x: 0,
        work_y: 0,
        work_width: 1920,
        work_height: 1040,
        is_primary: true,
    }
}

#[test]
fn positions_computed_from_work_area() {
    let m = test_monitor();
    assert_eq!(calculate_position(Position::TopLeft, &m, 96, 48, 20), (20, 20));
    assert_eq!(calculate_position(Position::TopRight, &m, 96, 48, 20), (1804, 20));
    assert_eq!(calculate_position(Position::BottomLeft, &m, 96, 48, 20), (20, 972));
    assert_eq!(calculate_position(Position::BottomRight, &m, 96, 48, 20), (1804, 972));
    assert_eq!(calculate_position(Position::Center, &m, 96, 48, 20), (912, 496));
}

#[test]
fn position_respects_monitor_offset() {
    let mut m = test_monitor();
    m.work_x = 1920;
    m.work_y = 100;
    assert_eq!(calculate_position(Position::TopLeft, &m, 96, 48, 10), (1930, 110));
    assert_eq!(calculate_position(Position::Center, &m, 96, 48, 10), (1920 + 912, 100 + 496));
}

#[test]
fn new_window_starts_transparent_with_initial_text() {
    let config = AppConfig::default();
    let w = IndicatorWindow::new(Position::TopLeft, &config, test_monitor());
    assert_eq!(w.font_size, 32);
    assert_eq!(w.width, 96);
    assert_eq!(w.height, 48);
    assert_eq!(w.x, 20);
    assert_eq!(w.y, 20);
    assert_eq!(w.text, "EN".to_string());
    assert!(!w.is_russian);
    assert_eq!(w.get_alpha(), 0);
    assert_eq!(w.get_target_alpha(), 0);
    assert!(!w.is_animating());
}

#[test]
fn center_window_uses_center_font_size() {
    let config = AppConfig::default();
    let w = IndicatorWindow::new(Position::Center, &config, test_monitor());
    assert_eq!(w.font_size, 64);
    assert_eq!(w.width, 192);
    assert_eq!(w.height, 96);
    assert_eq!(w.x, (1920 - 192) / 2);
    assert_eq!(w.y, (1040 - 96) / 2);
}

#[test]
fn fade_in_reaches_max_in_ceil_steps() {
    // Step 25 toward 255: exactly ceil(255 / 25) = 11 ticks.
    let config = AppConfig::default();
    let mut w = IndicatorWindow::new(Position::TopLeft, &config, test_monitor());
    w.show();
    let mut ticks: u32 = 0;
    let mut previous: u8 = w.get_alpha();
    loop {
        let (still, fx) = w.update_fade();
        if !still {
            break;
        }
        ticks += 1;
        let current = w.get_alpha();
        assert!(current > previous, "alpha must grow monotonically");
        assert!(current <= 255);
        assert_eq!(fx.apply_alpha, Some(current));
        assert!(!fx.conceal);
        previous = current;
        assert!(ticks <= 11);
    }
    assert_eq!(ticks, 11);
    assert_eq!(w.get_alpha(), 255);
    // Every further call reports "not animating" and does nothing.
    let (still, _) = w.update_fade();
    assert!(!still);
    assert_eq!(w.get_alpha(), 255);
}

#[test]
fn fade_out_conceals_at_zero() {
    let config = AppConfig::default();
    let mut w = IndicatorWindow::new(Position::TopLeft, &config, test_monitor());
    w.show();
    while w.is_animating() {
        w.update_fade();
    }
    w.hide_window();
    assert_eq!(w.get_target_alpha(), 0);
    // The surface is concealed only on the tick that reaches zero.
    let mut concealed: u32 = 0;
    while w.is_animating() {
        let (_, fx) = w.update_fade();
        if fx.conceal {
            concealed += 1;
            assert_eq!(w.get_alpha(), 0);
        }
    }
    assert_eq!(concealed, 1);
    assert_eq!(w.get_alpha(), 0);
}

#[test]
fn show_twice_is_idempotent_but_still_redraws() {
    let config = AppConfig::default();
    let mut w = IndicatorWindow::new(Position::TopLeft, &config, test_monitor());
    w.show();
    while w.is_animating() {
        w.update_fade();
    }
    let alpha_before = w.get_alpha();
    let fx1 = w.show();
    let fx2 = w.show();
    assert_eq!(w.get_alpha(), alpha_before);
    assert_eq!(w.get_target_alpha(), 255);
    for fx in [fx1, fx2] {
        assert!(fx.reveal);
        assert!(fx.raise_topmost);
        assert!(fx.redraw);
        assert_eq!(fx.apply_alpha, None);
        assert!(!fx.conceal);
    }
}

#[test]
fn update_text_takes_effect_and_redraws() {
    let config = AppConfig::default();
    let mut w = IndicatorWindow::new(Position::TopLeft, &config, test_monitor());
    let fx = w.update_text("RU", true);
    assert_eq!(w.text, "RU".to_string());
    assert!(w.is_russian);
    assert!(fx.redraw);
    assert!(!fx.reveal);
    assert_eq!(w.get_alpha(), 0);
}

#[test]
fn set_alpha_jumps_and_reveals() {
    let config = AppConfig::default();
    let mut w = IndicatorWindow::new(Position::TopLeft, &config, test_monitor());
    let fx = w.set_alpha(200);
    assert_eq!(w.get_alpha(), 200);
    assert_eq!(w.get_target_alpha(), 200);
    assert!(!w.is_animating());
    assert!(fx.reveal);
    assert_eq!(fx.apply_alpha, Some(200));
    assert!(!fx.conceal);
    let fx0 = w.set_alpha(0);
    assert!(fx0.conceal);
    assert!(!fx0.reveal);
}

#[test]
fn enabled_positions_in_fixed_order() {
    let config = AppConfig::default();
    let all = get_enabled_positions(&config);
    assert_eq!(
        all,
        vec![
            Position::TopLeft,
            Position::TopRight,
            Position::BottomLeft,
            Position::BottomRight,
            Position::Center,
        ]
    );
    let mut some = AppConfig::default();
    some.positions.top_right = false;
    some.positions.bottom_left = false;
    some.positions.center = false;
    assert_eq!(
        get_enabled_positions(&some),
        vec![Position::TopLeft, Position::BottomRight]
    );
}

#[test]
fn create_indicators_builds_grid_per_monitor() {
    let mut config = AppConfig::default();
    config.positions.bottom_left = false;
    config.positions.bottom_right = false;
    let mut second = test_monitor();
    second.x = 1920;
    second.work_x = 1920;
    second.is_primary = false;
    let monitors = vec![test_monitor(), second];
    let windows = create_indicators(&config, &monitors);
    assert_eq!(windows.len(), 6);
    // First monitor's three windows, then the second's.
    assert_eq!(windows[0].position, Position::TopLeft);
    assert_eq!(windows[1].position, Position::TopRight);
    assert_eq!(windows[2].position, Position::Center);
    assert_eq!(windows[3].position, Position::TopLeft);
    assert!(windows[0].monitor.is_primary);
    assert!(!windows[3].monitor.is_primary);
    assert_eq!(windows[3].x, 1920 + 20);
    for w in &windows {
        assert_eq!(w.get_alpha(), 0);
        assert_eq!(w.text, "EN".to_string());
    }
}

#[test]
fn geometry_check_guards_window_creation() {
    let config = AppConfig::default();
    let m = test_monitor();
    assert!(indicator_geometry_ok(Position::TopLeft, &config, &m));
    assert!(indicator_geometry_ok(Position::Center, &config, &m));
    let mut tiny = test_monitor();
    tiny.work_width = 100;
    // The center surface (192 px wide at font size 64) does not fit.
    assert!(!indicator_geometry_ok(Position::Center, &config, &tiny));
    assert!(indicator_geometry_ok(Position::TopLeft, &config, &tiny));
    let mut zero_font = AppConfig::default();
    zero_font.font_size_corner = 0;
    assert!(!indicator_geometry_ok(Position::TopLeft, &zero_font, &m));
}
