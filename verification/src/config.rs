//! Configuration data for the layout indicator.
//!
//! Holds the application settings as plain values, their default values, and
//! the pure decisions behind configuration hot-reload (whether the stored
//! file changed since the last observation). Reading and writing the file
//! itself happens outside the library; the library only receives the loaded
//! values and the file's modification timestamp.

use vstd::prelude::*;
use vstd::string::StrSliceExecFns;

verus! {

/// Sound settings for layout-change cues.
#[derive(Debug, Clone)]
pub struct SoundConfig {
    /// Whether sound is enabled.
    pub enabled: bool,
    /// Frequency for the English layout (Hz).
    pub frequency_en: u32,
    /// Frequency for the Russian layout (Hz).
    pub frequency_ru: u32,
    /// Beep duration in milliseconds.
    pub duration_ms: u32,
}

/// Hotkey settings.
#[derive(Debug, Clone)]
pub struct HotkeyConfig {
    /// Whether global hotkeys are enabled.
    pub enabled: bool,
    /// Toggle-visibility binding (e.g. "ctrl+alt+l").
    pub toggle: String,
    /// Exit binding (e.g. "ctrl+alt+q").
    pub exit: String,
}

/// Text colors per layout, as hex strings.
#[derive(Debug, Clone)]
pub struct ColorsConfig {
    /// Color for the English layout.
    pub en: String,
    /// Color for the Russian layout.
    pub ru: String,
}

/// Which screen positions show an indicator.
#[derive(Debug, Clone)]
pub struct PositionsConfig {
    pub top_left: bool,
    pub top_right: bool,
    pub bottom_left: bool,
    pub bottom_right: bool,
    pub center: bool,
}

/// Fade animation settings.
#[derive(Debug, Clone)]
pub struct FadeConfig {
    /// Total fade duration in milliseconds.
    pub duration_ms: u32,
    /// Number of animation steps.
    pub steps: u32,
}

/// The whole application configuration.
#[derive(Debug, Clone)]
pub struct AppConfig {
    /// Font size for corner indicators.
    pub font_size_corner: u32,
    /// Font size for the center indicator.
    pub font_size_center: u32,
    /// Font family name.
    pub font_family: String,
    /// Update delay in milliseconds.
    pub update_delay_ms: u32,
    /// Auto-hide delay in milliseconds.
    pub hide_delay_ms: u32,
    /// Margin from the screen edges in pixels.
    pub margin: i32,
    pub colors: ColorsConfig,
    pub positions: PositionsConfig,
    pub fade: FadeConfig,
    pub sound: SoundConfig,
    pub hotkeys: HotkeyConfig,
}

pub fn default_true() -> (b: bool)
    ensures
        b,
{
    true
}

pub fn default_freq_en() -> (v: u32)
    ensures
        v == 800,
{
    800
}

pub fn default_freq_ru() -> (v: u32)
    ensures
        v == 600,
{
    600
}

pub fn default_duration() -> (v: u32)
    ensures
        v == 50,
{
    50
}

pub fn default_toggle() -> (s: String)
    ensures
        s@ == "ctrl+alt+l"@,
{
    "ctrl+alt+l".to_owned()
}

pub fn default_exit() -> (s: String)
    ensures
        s@ == "ctrl+alt+q"@,
{
    "ctrl+alt+q".to_owned()
}

pub fn default_color_en() -> (s: String)
    ensures
        s@ == "#55FF55"@,
{
    "#55FF55".to_owned()
}

pub fn default_color_ru() -> (s: String)
    ensures
        s@ == "#FF5555"@,
{
    "#FF5555".to_owned()
}

pub fn default_font_size_corner() -> (v: u32)
    ensures
        v == 32,
{
    32
}

pub fn default_font_size_center() -> (v: u32)
    ensures
        v == 64,
{
    64
}

pub fn default_font_family() -> (s: String)
    ensures
        s@ == "Arial"@,
{
    "Arial".to_owned()
}

pub fn default_update_delay() -> (v: u32)
    ensures
        v == 250,
{
    250
}

pub fn default_hide_delay() -> (v: u32)
    ensures
        v == 5000,
{
    5000
}

pub fn default_margin() -> (v: i32)
    ensures
        v == 20,
{
    20
}

pub fn default_fade_duration() -> (v: u32)
    ensures
        v == 200,
{
    200
}

pub fn default_fade_steps() -> (v: u32)
    ensures
        v == 10,
{
    10
}

impl Default for SoundConfig {
    fn default() -> (c: Self)
        ensures
            c.enabled,
            c.frequency_en == 800,
            c.frequency_ru == 600,
            c.duration_ms == 50,
    {
        SoundConfig {
            enabled: default_true(),
            frequency_en: default_freq_en(),
            frequency_ru: default_freq_ru(),
            duration_ms: default_duration(),
        }
    }
}

impl Default for HotkeyConfig {
    fn default() -> (c: Self)
        ensures
            c.enabled,
            c.toggle@ == "ctrl+alt+l"@,
            c.exit@ == "ctrl+alt+q"@,
    {
        HotkeyConfig { enabled: default_true(), toggle: default_toggle(), exit: default_exit() }
    }
}

impl Default for ColorsConfig {
    fn default() -> (c: Self)
        ensures
            c.en@ == "#55FF55"@,
            c.ru@ == "#FF5555"@,
    {
        ColorsConfig { en: default_color_en(), ru: default_color_ru() }
    }
}

impl Default for PositionsConfig {
    fn default() -> (c: Self)
        ensures
            c.top_left && c.top_right && c.bottom_left && c.bottom_right && c.center,
    {
        PositionsConfig {
            top_left: default_true(),
            top_right: default_true(),
            bottom_left: default_true(),
            bottom_right: default_true(),
            center: default_true(),
        }
    }
}

impl Default for FadeConfig {
    fn default() -> (c: Self)
        ensures
            c.duration_ms == 200,
            c.steps == 10,
    {
        FadeConfig { duration_ms: default_fade_duration(), steps: default_fade_steps() }
    }
}

impl Default for AppConfig {
    fn default() -> (c: Self)
        ensures
            c.font_size_corner == 32,
            c.font_size_center == 64,
            c.font_family@ == "Arial"@,
            c.update_delay_ms == 250,
            c.hide_delay_ms == 5000,
            c.margin == 20,
            c.colors.en@ == "#55FF55"@,
            c.colors.ru@ == "#FF5555"@,
            c.positions.top_left && c.positions.top_right && c.positions.bottom_left
                && c.positions.bottom_right && c.positions.center,
            c.fade.duration_ms == 200,
            c.fade.steps == 10,
            c.sound.enabled && c.sound.frequency_en == 800 && c.sound.frequency_ru == 600
                && c.sound.duration_ms == 50,
            c.hotkeys.enabled,
            c.hotkeys.toggle@ == "ctrl+alt+l"@,
            c.hotkeys.exit@ == "ctrl+alt+q"@,
    {
        AppConfig {
            font_size_corner: default_font_size_corner(),
            font_size_center: default_font_size_center(),
            font_family: default_font_family(),
            update_delay_ms: default_update_delay(),
            hide_delay_ms: default_hide_delay(),
            margin: default_margin(),
            colors: ColorsConfig::default(),
            positions: PositionsConfig::default(),
            fade: FadeConfig::default(),
            sound: SoundConfig::default(),
            hotkeys: HotkeyConfig::default(),
        }
    }
}

/// Knows where the configuration file lives. Reading, writing and stat-ing
/// the file happen outside the library; this type only carries the path and
/// the pure hot-reload decision.
pub struct ConfigManager {
    config_path: String,
}

impl ConfigManager {
    /// The path this manager was created with.
    pub closed spec fn spec_path(&self) -> Seq<char> {
        self.config_path@
    }

    /// Creates a manager for the configuration file at `config_path`.
    pub fn new(config_path: String) -> (m: Self)
        ensures
            m.spec_path() == config_path@,
    {
        ConfigManager { config_path }
    }

    /// Returns the configuration file path.
    pub fn path(&self) -> (p: &String)
        ensures
            p@ == self.spec_path(),
    {
        &self.config_path
    }
}

/// Whether a freshly observed modification timestamp means the stored
/// configuration changed since the last observation. With no previous
/// observation every timestamp counts as a change.
pub open spec fn spec_config_changed(last_mtime: Option<u64>, current_mtime: u64) -> bool {
    match last_mtime {
        Option::Some(last) => current_mtime != last,
        Option::None => true,
    }
}

/// Decides whether the configuration must be reloaded, given the previously
/// observed modification timestamp (if any) and the current one.
pub fn config_changed(last_mtime: Option<u64>, current_mtime: u64) -> (changed: bool)
    ensures
        changed == spec_config_changed(last_mtime, current_mtime),
{
    match last_mtime {
        Option::Some(last) => current_mtime != last,
        Option::None => true,
    }
}

/// The value of a hexadecimal digit character, or -1 for anything else.
pub open spec fn spec_hex_digit_val(c: char) -> int {
    let u = c as u32;
    if 48 <= u <= 57 {
        u - 48
    } else if 97 <= u <= 102 {
        u - 87
    } else if 65 <= u <= 70 {
        u - 55
    } else {
        -1
    }
}

/// A color string without its leading '#' characters.
pub open spec fn spec_strip_hash(s: Seq<char>) -> Seq<char>
    decreases s.len(),
{
    if s.len() > 0 && s[0] == '#' {
        spec_strip_hash(s.drop_first())
    } else {
        s
    }
}

/// One color component from two hexadecimal digits; an invalid digit makes
/// the component 255.
pub open spec fn spec_hex_pair(s: Seq<char>, i: int) -> u8 {
    let h = spec_hex_digit_val(s[i]);
    let l = spec_hex_digit_val(s[i + 1]);
    if h >= 0 && l >= 0 {
        (16 * h + l) as u8
    } else {
        255
    }
}

/// The red, green and blue components of a hex color string such as
/// "#55FF55": leading '#' characters are stripped, then three digit pairs
/// are read; a string shorter than six remaining characters, or an invalid
/// digit in a pair, yields white (255) for the affected components.
pub open spec fn spec_parse_hex_color(s: Seq<char>) -> (u8, u8, u8) {
    let t = spec_strip_hash(s);
    if t.len() >= 6 {
        (spec_hex_pair(t, 0), spec_hex_pair(t, 2), spec_hex_pair(t, 4))
    } else {
        (255, 255, 255)
    }
}

/// The text color an indicator draws its layout name in.
pub fn layout_color(is_russian: bool, colors: &ColorsConfig) -> (rgb: (u8, u8, u8))
    ensures
        rgb == if is_russian {
            spec_parse_hex_color(colors.ru@)
        } else {
            spec_parse_hex_color(colors.en@)
        },
{
    if is_russian {
        parse_hex_color(colors.ru.as_str())
    } else {
        parse_hex_color(colors.en.as_str())
    }
}

fn hex_digit_val(c: char) -> (v: i32)
    ensures
        v == spec_hex_digit_val(c),
{
    let u = c as u32;
    if 48 <= u && u <= 57 {
        (u - 48) as i32
    } else if 97 <= u && u <= 102 {
        (u - 87) as i32
    } else if 65 <= u && u <= 70 {
        (u - 55) as i32
    } else {
        -1
    }
}

/// Parses a hex color string to its RGB components.
pub fn parse_hex_color(hex: &str) -> (rgb: (u8, u8, u8))
    ensures
        rgb == spec_parse_hex_color(hex@),
{
    let n = hex.unicode_len();
    let mut start: usize = 0;
    proof {
        assert(hex@.skip(0) =~= hex@);
    }
    while start < n
        invariant_except_break
            start <= n,
            n == hex@.len(),
            spec_strip_hash(hex@) == spec_strip_hash(hex@.skip(start as int)),
        ensures
            start <= n,
            n == hex@.len(),
            spec_strip_hash(hex@) == hex@.skip(start as int),
        decreases n - start,
    {
        let c = hex.get_char(start);
        proof {
            let t = hex@.skip(start as int);
            assert(t.len() > 0);
            assert(t[0] == hex@[start as int]);
            assert(t.drop_first() =~= hex@.skip(start as int + 1));
        }
        if c != '#' {
            break;
        }
        start = start + 1;
    }
    proof {
        if start == n {
            assert(hex@.skip(start as int) =~= Seq::<char>::empty());
        }
    }
    let ghost t = hex@.skip(start as int);
    if n - start >= 6 {
        let h0 = hex_digit_val(hex.get_char(start));
        let h1 = hex_digit_val(hex.get_char(start + 1));
        let h2 = hex_digit_val(hex.get_char(start + 2));
        let h3 = hex_digit_val(hex.get_char(start + 3));
        let h4 = hex_digit_val(hex.get_char(start + 4));
        let h5 = hex_digit_val(hex.get_char(start + 5));
        proof {
            assert(t[0] == hex@[start as int]);
            assert(t[1] == hex@[start as int + 1]);
            assert(t[2] == hex@[start as int + 2]);
            assert(t[3] == hex@[start as int + 3]);
            assert(t[4] == hex@[start as int + 4]);
            assert(t[5] == hex@[start as int + 5]);
        }
        let r: u8 = if h0 >= 0 && h1 >= 0 {
            (16 * h0 + h1) as u8
        } else {
            255
        };
        let g: u8 = if h2 >= 0 && h3 >= 0 {
            (16 * h2 + h3) as u8
        } else {
            255
        };
        let b: u8 = if h4 >= 0 && h5 >= 0 {
            (16 * h4 + h5) as u8
        } else {
            255
        };
        (r, g, b)
    } else {
        (255, 255, 255)
    }
}

} // verus!
