use langtip::config::AppConfig;
use langtip::config::ColorsConfig;
use langtip::config::ConfigManager;
use langtip::config::FadeConfig;
use langtip::config::HotkeyConfig;
use langtip::config::PositionsConfig;
use langtip::config::SoundConfig;
use langtip::config::config_changed;
use langtip::config::layout_color;
use langtip::config::parse_hex_color;
use langtip::hotkeys::parse_hotkey;

#[test]
fn default_values() {
    let c = AppConfig::default();
    assert_eq!(c.font_size_corner, 32);
    assert_eq!(c.font_size_center, 64);
    assert_eq!(c.font_family, "Arial".to_string());
    assert_eq!(c.update_delay_ms, 250);
    assert_eq!(c.hide_delay_ms, 5000);
    assert_eq!(c.margin, 20);
    let colors = ColorsConfig::default();
    assert_eq!(colors.en, "#55FF55".to_string());
    assert_eq!(colors.ru, "#FF5555".to_string());
    let p = PositionsConfig::default();
    assert!(p.top_left && p.top_right && p.bottom_left && p.bottom_right && p.center);
    let f = FadeConfig::default();
    assert_eq!(f.duration_ms, 200);
    assert_eq!(f.steps, 10);
    let s = SoundConfig::default();
    assert!(s.enabled);
    assert_eq!(s.frequency_en, 800);
    assert_eq!(s.frequency_ru, 600);
    assert_eq!(s.duration_ms, 50);
    let h = HotkeyConfig::default();
    assert!(h.enabled);
    assert_eq!(h.toggle, "ctrl+alt+l".to_string());
    assert_eq!(h.exit, "ctrl+alt+q".to_string());
}

#[test]
fn manager_keeps_its_path() {
    let m = ConfigManager::new("config.json".to_string());
    assert_eq!(m.path(), &"config.json".to_string());
}

#[test]
fn hot_reload_decision() {
    assert!(config_changed(None, 5));
    assert!(!config_changed(Some(5), 5));
    assert!(config_changed(Some(5), 6));
}

#[test]
fn hex_color_parses_components() {
    assert_eq!(parse_hex_color("#55FF55"), (0x55, 0xFF, 0x55));
    assert_eq!(parse_hex_color("#FF5555"), (0xFF, 0x55, 0x55));
    assert_eq!(parse_hex_color("#000000"), (0, 0, 0));
    assert_eq!(parse_hex_color("#aabbcc"), (170, 187, 204));
}

#[test]
fn hex_color_without_hash() {
    assert_eq!(parse_hex_color("102030"), (0x10, 0x20, 0x30));
}

#[test]
fn hex_color_too_short_is_white() {
    assert_eq!(parse_hex_color("#FFF"), (255, 255, 255));
    assert_eq!(parse_hex_color(""), (255, 255, 255));
    assert_eq!(parse_hex_color("#"), (255, 255, 255));
}

#[test]
fn hex_color_invalid_digits_whiten_their_component() {
    assert_eq!(parse_hex_color("#GG0102"), (255, 1, 2));
    assert_eq!(parse_hex_color("#01GG02"), (1, 255, 2));
    assert_eq!(parse_hex_color("#ZZZZZZ"), (255, 255, 255));
}

#[test]
fn hex_color_extra_characters_ignored() {
    assert_eq!(parse_hex_color("#55FF55FF"), (0x55, 0xFF, 0x55));
    assert_eq!(parse_hex_color("##55FF55"), (0x55, 0xFF, 0x55));
}

#[test]
fn hotkey_parses_modifiers_and_key() {
    assert_eq!(parse_hotkey("ctrl+alt+l"), Some((0x2 | 0x1, 0x4C)));
    assert_eq!(parse_hotkey("ctrl+alt+q"), Some((0x2 | 0x1, 0x51)));
    assert_eq!(parse_hotkey("shift+f5"), Some((0x4, 0x74)));
    assert_eq!(parse_hotkey("control+space"), Some((0x2, 0x20)));
    assert_eq!(parse_hotkey("escape"), Some((0, 0x1B)));
}

#[test]
fn hotkey_is_case_insensitive() {
    assert_eq!(parse_hotkey("CTRL+ALT+L"), Some((0x3, 0x4C)));
    assert_eq!(parse_hotkey("Ctrl+Alt+F12"), Some((0x3, 0x7B)));
}

#[test]
fn hotkey_tolerates_blanks() {
    assert_eq!(parse_hotkey(" ctrl + alt + l "), Some((0x3, 0x4C)));
}

#[test]
fn hotkey_without_key_is_rejected() {
    assert_eq!(parse_hotkey("ctrl+alt"), None);
    assert_eq!(parse_hotkey(""), None);
    assert_eq!(parse_hotkey("shift"), None);
}

#[test]
fn hotkey_last_key_wins_and_unknown_parts_are_ignored() {
    assert_eq!(parse_hotkey("ctrl+alt+l+q"), Some((0x3, 0x51)));
    assert_eq!(parse_hotkey("ctrl+bogus+l"), Some((0x2, 0x4C)));
}

#[test]
fn layout_color_picks_per_layout() {
    let colors = ColorsConfig::default();
    assert_eq!(layout_color(false, &colors), (0x55, 0xFF, 0x55));
    assert_eq!(layout_color(true, &colors), (0xFF, 0x55, 0x55));
}
