//! Window and live-status settings: how each setting is stored in the
//! per-user settings key, what a stored value reads back as, and what a
//! change writes.
//!
//! The registry itself is reached by the application; these functions take
//! the stored value (`None` when the value is missing or unreadable) and give
//! the value to write.
use vstd::prelude::*;

verus! {

/// Path of the per-user settings key below `HKEY_CURRENT_USER`.
pub fn settings_key() -> (r: &'static str)
    ensures
        r@ == "Software\\HerdrNachtwaechter"@,
{
    "Software\\HerdrNachtwaechter"
}

/// The values stored under the settings key.
#[derive(Clone, Copy, Debug, PartialEq, Eq, Structural)]
pub enum Setting {
    WindowOpacity,
    WindowLevel,
    Language,
    LiveStatusOnStartup,
    ShowLiveStatusInTaskbar,
    ShowAnalogClock,
    ShowClockSecondHand,
    LiveStatusPositionX,
    LiveStatusPositionY,
    LiveStatusScale,
    LiveStatusRepaintIntervalMs,
    LiveStatusQuotaOpen,
    LiveStatusQuotaDocked,
    LiveStatusQuotaPositionX,
    LiveStatusQuotaPositionY,
    LiveStatusQuotaShowGlm,
    LiveStatusQuotaShowAgi,
    LiveStatusQuotaShowCodex,
    LiveStatusQuotaShowClaude,
    LiveStatusQuotaColorGlm,
    LiveStatusQuotaColorAgi,
    LiveStatusQuotaColorCodex,
    LiveStatusQuotaColorClaude,
    LiveStatusCornerRadius,
    LiveStatusQuotaSettingsOpen,
}

/// Registry value name of a setting.
pub open spec fn setting_name(s: Setting) -> Seq<char> {
    match s {
        Setting::WindowOpacity => "WindowOpacity"@,
        Setting::WindowLevel => "WindowLevel"@,
        Setting::Language => "Language"@,
        Setting::LiveStatusOnStartup => "OpenLiveStatusOnStartup"@,
        Setting::ShowLiveStatusInTaskbar => "ShowLiveStatusInTaskbar"@,
        Setting::ShowAnalogClock => "ShowAnalogClock"@,
        Setting::ShowClockSecondHand => "ShowClockSecondHand"@,
        Setting::LiveStatusPositionX => "LiveStatusPositionX"@,
        Setting::LiveStatusPositionY => "LiveStatusPositionY"@,
        Setting::LiveStatusScale => "LiveStatusScale"@,
        Setting::LiveStatusRepaintIntervalMs => "LiveStatusRepaintIntervalMs"@,
        Setting::LiveStatusQuotaOpen => "LiveStatusQuotaOpen"@,
        Setting::LiveStatusQuotaDocked => "LiveStatusQuotaDocked"@,
        Setting::LiveStatusQuotaPositionX => "LiveStatusQuotaPositionX"@,
        Setting::LiveStatusQuotaPositionY => "LiveStatusQuotaPositionY"@,
        Setting::LiveStatusQuotaShowGlm => "LiveStatusQuotaShowGlm"@,
        Setting::LiveStatusQuotaShowAgi => "LiveStatusQuotaShowAgi"@,
        Setting::LiveStatusQuotaShowCodex => "LiveStatusQuotaShowCodex"@,
        Setting::LiveStatusQuotaShowClaude => "LiveStatusQuotaShowClaude"@,
        Setting::LiveStatusQuotaColorGlm => "LiveStatusQuotaColorGlm"@,
        Setting::LiveStatusQuotaColorAgi => "LiveStatusQuotaColorAgi"@,
        Setting::LiveStatusQuotaColorCodex => "LiveStatusQuotaColorCodex"@,
        Setting::LiveStatusQuotaColorClaude => "LiveStatusQuotaColorClaude"@,
        Setting::LiveStatusCornerRadius => "LiveStatusCornerRadius"@,
        Setting::LiveStatusQuotaSettingsOpen => "LiveStatusQuotaSettingsOpen"@,
    }
}

impl Setting {
    /// Registry value name of this setting.
    pub fn value_name(self) -> (r: &'static str)
        ensures
            r@ == setting_name(self),
    {
        match self {
            Setting::WindowOpacity => "WindowOpacity",
            Setting::WindowLevel => "WindowLevel",
            Setting::Language => "Language",
            Setting::LiveStatusOnStartup => "OpenLiveStatusOnStartup",
            Setting::ShowLiveStatusInTaskbar => "ShowLiveStatusInTaskbar",
            Setting::ShowAnalogClock => "ShowAnalogClock",
            Setting::ShowClockSecondHand => "ShowClockSecondHand",
            Setting::LiveStatusPositionX => "LiveStatusPositionX",
            Setting::LiveStatusPositionY => "LiveStatusPositionY",
            Setting::LiveStatusScale => "LiveStatusScale",
            Setting::LiveStatusRepaintIntervalMs => "LiveStatusRepaintIntervalMs",
            Setting::LiveStatusQuotaOpen => "LiveStatusQuotaOpen",
            Setting::LiveStatusQuotaDocked => "LiveStatusQuotaDocked",
            Setting::LiveStatusQuotaPositionX => "LiveStatusQuotaPositionX",
            Setting::LiveStatusQuotaPositionY => "LiveStatusQuotaPositionY",
            Setting::LiveStatusQuotaShowGlm => "LiveStatusQuotaShowGlm",
            Setting::LiveStatusQuotaShowAgi => "LiveStatusQuotaShowAgi",
            Setting::LiveStatusQuotaShowCodex => "LiveStatusQuotaShowCodex",
            Setting::LiveStatusQuotaShowClaude => "LiveStatusQuotaShowClaude",
            Setting::LiveStatusQuotaColorGlm => "LiveStatusQuotaColorGlm",
            Setting::LiveStatusQuotaColorAgi => "LiveStatusQuotaColorAgi",
            Setting::LiveStatusQuotaColorCodex => "LiveStatusQuotaColorCodex",
            Setting::LiveStatusQuotaColorClaude => "LiveStatusQuotaColorClaude",
            Setting::LiveStatusCornerRadius => "LiveStatusCornerRadius",
            Setting::LiveStatusQuotaSettingsOpen => "LiveStatusQuotaSettingsOpen",
        }
    }
}


/// Every setting is stored under a value name of its own: writing one setting
/// never overwrites another.
#[verifier::rlimit(50)]
pub proof fn lemma_setting_names_distinct(a: Setting, b: Setting)
    requires
        a != b,
    ensures
        setting_name(a) != setting_name(b),
{
    reveal_strlit("WindowOpacity");
    reveal_strlit("WindowLevel");
    reveal_strlit("Language");
    reveal_strlit("OpenLiveStatusOnStartup");
    reveal_strlit("ShowLiveStatusInTaskbar");
    reveal_strlit("ShowAnalogClock");
    reveal_strlit("ShowClockSecondHand");
    reveal_strlit("LiveStatusPositionX");
    reveal_strlit("LiveStatusPositionY");
    reveal_strlit("LiveStatusScale");
    reveal_strlit("LiveStatusRepaintIntervalMs");
    reveal_strlit("LiveStatusQuotaOpen");
    reveal_strlit("LiveStatusQuotaDocked");
    reveal_strlit("LiveStatusQuotaPositionX");
    reveal_strlit("LiveStatusQuotaPositionY");
    reveal_strlit("LiveStatusQuotaShowGlm");
    reveal_strlit("LiveStatusQuotaShowAgi");
    reveal_strlit("LiveStatusQuotaShowCodex");
    reveal_strlit("LiveStatusQuotaShowClaude");
    reveal_strlit("LiveStatusQuotaColorGlm");
    reveal_strlit("LiveStatusQuotaColorAgi");
    reveal_strlit("LiveStatusQuotaColorCodex");
    reveal_strlit("LiveStatusQuotaColorClaude");
    reveal_strlit("LiveStatusCornerRadius");
    reveal_strlit("LiveStatusQuotaSettingsOpen");
    if setting_name(a) == setting_name(b) {
        assert(setting_name(a)[0] == setting_name(b)[0]);
        assert(setting_name(a)[1] == setting_name(b)[1]);
        assert(setting_name(a)[2] == setting_name(b)[2]);
        assert(setting_name(a)[3] == setting_name(b)[3]);
        assert(setting_name(a)[4] == setting_name(b)[4]);
        assert(setting_name(a)[5] == setting_name(b)[5]);
        assert(setting_name(a)[6] == setting_name(b)[6]);
        assert(setting_name(a)[7] == setting_name(b)[7]);
        assert(setting_name(a)[8] == setting_name(b)[8]);
        assert(setting_name(a)[9] == setting_name(b)[9]);
        assert(setting_name(a)[10] == setting_name(b)[10]);
        assert(setting_name(a)[11] == setting_name(b)[11]);
        assert(setting_name(a)[12] == setting_name(b)[12]);
        assert(setting_name(a)[13] == setting_name(b)[13]);
        assert(setting_name(a)[14] == setting_name(b)[14]);
        assert(setting_name(a)[15] == setting_name(b)[15]);
        assert(setting_name(a)[16] == setting_name(b)[16]);
        assert(setting_name(a)[17] == setting_name(b)[17]);
        assert(setting_name(a)[18] == setting_name(b)[18]);
        assert(setting_name(a)[19] == setting_name(b)[19]);
        assert(setting_name(a)[20] == setting_name(b)[20]);
        assert(setting_name(a)[21] == setting_name(b)[21]);
        assert(setting_name(a)[22] == setting_name(b)[22]);
        assert(setting_name(a)[23] == setting_name(b)[23]);
        assert(setting_name(a)[24] == setting_name(b)[24]);
        assert(setting_name(a)[25] == setting_name(b)[25]);
        assert(setting_name(a)[26] == setting_name(b)[26]);
        assert(setting_name(a)[27] == setting_name(b)[27]);
    }
}


/// A value to store: the setting and its new 32-bit value.
#[derive(Clone, Copy, Debug, PartialEq, Eq, Structural)]
pub struct SettingWrite {
    pub setting: Setting,
    pub value: u32,
}

// ---------------------------------------------------------------------------
// Window level
// ---------------------------------------------------------------------------

/// Where the live window sits among the other windows.
#[derive(Clone, Copy, Debug, PartialEq, Eq, Structural)]
pub enum WindowLevel {
    Normal,
    AlwaysOnTop,
    AlwaysOnBottom,
}

/// Stored text of a window level.
pub open spec fn level_text(level: WindowLevel) -> Seq<char> {
    match level {
        WindowLevel::Normal => "normal"@,
        WindowLevel::AlwaysOnTop => "top"@,
        WindowLevel::AlwaysOnBottom => "bottom"@,
    }
}

/// The level that a stored text reads as: "top", "bottom", anything else
/// (or nothing) is normal.
pub open spec fn level_of(stored: Option<Seq<char>>) -> WindowLevel {
    match stored {
        Some(t) => if t == "top"@ {
            WindowLevel::AlwaysOnTop
        } else if t == "bottom"@ {
            WindowLevel::AlwaysOnBottom
        } else {
            WindowLevel::Normal
        },
        None => WindowLevel::Normal,
    }
}

impl WindowLevel {
    /// The next level in the cycle normal, top, bottom.
    pub fn next(self) -> (r: Self)
        ensures
            r == (match self {
                WindowLevel::Normal => WindowLevel::AlwaysOnTop,
                WindowLevel::AlwaysOnTop => WindowLevel::AlwaysOnBottom,
                WindowLevel::AlwaysOnBottom => WindowLevel::Normal,
            }),
    {
        match self {
            WindowLevel::Normal => WindowLevel::AlwaysOnTop,
            WindowLevel::AlwaysOnTop => WindowLevel::AlwaysOnBottom,
            WindowLevel::AlwaysOnBottom => WindowLevel::Normal,
        }
    }

    /// The level stored under `WindowLevel` (`None` when nothing is stored).
    pub fn current(stored: Option<&str>) -> (r: Self)
        ensures
            r == level_of(match stored {
                Some(t) => Some(t@),
                None => None,
            }),
    {
        match stored {
            Some(t) => {
                let v = crate::text::chars_of(t);
                if crate::text::eq_str(&v, "top") {
                    WindowLevel::AlwaysOnTop
                } else if crate::text::eq_str(&v, "bottom") {
                    WindowLevel::AlwaysOnBottom
                } else {
                    WindowLevel::Normal
                }
            },
            None => WindowLevel::Normal,
        }
    }

    /// The text to store under `WindowLevel` for this level.
    pub fn setting_value(self) -> (r: &'static str)
        ensures
            r@ == level_text(self),
    {
        match self {
            WindowLevel::Normal => "normal",
            WindowLevel::AlwaysOnTop => "top",
            WindowLevel::AlwaysOnBottom => "bottom",
        }
    }
}

/// Cycling through the levels comes back after three steps.
pub proof fn lemma_level_cycle(level: WindowLevel)
    ensures
        next_level(next_level(next_level(level))) == level,
        next_level(level) != level,
{
}

/// The cycle step as a spec function.
pub open spec fn next_level(level: WindowLevel) -> WindowLevel {
    match level {
        WindowLevel::Normal => WindowLevel::AlwaysOnTop,
        WindowLevel::AlwaysOnTop => WindowLevel::AlwaysOnBottom,
        WindowLevel::AlwaysOnBottom => WindowLevel::Normal,
    }
}

/// A stored level reads back as the level that was stored.
pub proof fn lemma_level_round_trip(level: WindowLevel)
    ensures
        level_of(Some(level_text(level))) == level,
{
    reveal_strlit("normal");
    reveal_strlit("top");
    reveal_strlit("bottom");
    assert("normal"@ != "top"@) by {
        assert("normal"@.len() != "top"@.len());
    }
    assert("normal"@ != "bottom"@) by {
        assert("normal"@[0] != "bottom"@[0]);
    }
    assert("top"@ != "bottom"@) by {
        assert("top"@.len() != "bottom"@.len());
    }
}

// ---------------------------------------------------------------------------
// Opacity
// ---------------------------------------------------------------------------

/// The offered opacities: 100 %, 90 %, ... down to 10 %.
pub open spec fn offered_opacity(value: int) -> bool {
    10 <= value <= 100 && value % 10 == 0
}

/// The opacity that a value reads as: an offered one as it is, anything else
/// as fully opaque.
pub open spec fn opacity_of(value: int) -> int {
    if offered_opacity(value) {
        value
    } else {
        100
    }
}

/// The offered opacities in menu order.
pub fn opacity_choices() -> (r: Vec<u8>)
    ensures
        r@ == seq![100u8, 90, 80, 70, 60, 50, 40, 30, 20, 10],
{
    vec![100u8, 90, 80, 70, 60, 50, 40, 30, 20, 10]
}

/// The opacity that a stored `WindowOpacity` reads as.
pub open spec fn opacity_read(stored: Option<u32>) -> int {
    match stored {
        Some(v) => opacity_of(v as int),
        None => 100,
    }
}

/// Window opacity in percent from the stored `WindowOpacity`.
pub fn opacity(stored: Option<u32>) -> (r: u8)
    ensures
        r == opacity_read(stored),
{
    match stored {
        Some(v) => if 10 <= v && v <= 100 && v % 10 == 0 {
            v as u8
        } else {
            100
        },
        None => 100,
    }
}

/// What choosing an opacity writes; a value that is not offered is stored as
/// fully opaque.
pub fn set_opacity(value: u8) -> (r: SettingWrite)
    ensures
        r.setting == Setting::WindowOpacity,
        r.value == opacity_of(value as int),
{
    let stored: u32 = if 10 <= value && value <= 100 && value % 10 == 0 {
        value as u32
    } else {
        100
    };
    SettingWrite { setting: Setting::WindowOpacity, value: stored }
}

// ---------------------------------------------------------------------------
// On/off settings
// ---------------------------------------------------------------------------

/// An on/off setting: a stored zero is off, any other stored value is on, and
/// a missing value takes the default.
pub open spec fn flag_of(stored: Option<u32>, default: bool) -> bool {
    match stored {
        Some(v) => v != 0,
        None => default,
    }
}

/// Reads an on/off setting.
pub fn bool_setting_value(value: Option<u32>, default: bool) -> (r: bool)
    ensures
        r == flag_of(value, default),
{
    match value {
        Some(v) => v != 0,
        None => default,
    }
}

/// What switching an on/off setting writes: 1 for on, 0 for off.
pub fn write_bool_setting(setting: Setting, value: bool) -> (r: SettingWrite)
    ensures
        r.setting == setting,
        r.value == (if value { 1u32 } else { 0u32 }),
{
    SettingWrite { setting, value: if value { 1 } else { 0 } }
}

/// An on/off setting reads back as what was written.
pub proof fn lemma_bool_setting_round_trip(setting: Setting, value: bool, default: bool)
    ensures
        flag_of(Some(write_of(setting, value).value), default) == value,
{
}

/// Whether the live window opens when the tray app starts; the tray app
/// stays tray-only until this is turned on.
pub fn live_status_on_start(stored: Option<u32>) -> (r: bool)
    ensures
        r == flag_of(stored, false),
{
    bool_setting_value(stored, false)
}

pub fn set_live_status_on_start(enabled: bool) -> (r: SettingWrite)
    ensures
        r == write_of(Setting::LiveStatusOnStartup, enabled),
{
    write_bool_setting(Setting::LiveStatusOnStartup, enabled)
}

/// The write that stores an on/off value.
pub open spec fn write_of(setting: Setting, value: bool) -> SettingWrite {
    SettingWrite { setting, value: if value { 1u32 } else { 0u32 } }
}

/// Whether the live window shows in the taskbar (default on).
pub fn live_status_in_taskbar(stored: Option<u32>) -> (r: bool)
    ensures
        r == flag_of(stored, true),
{
    bool_setting_value(stored, true)
}

pub fn set_live_status_in_taskbar(show: bool) -> (r: SettingWrite)
    ensures
        r == write_of(Setting::ShowLiveStatusInTaskbar, show),
{
    write_bool_setting(Setting::ShowLiveStatusInTaskbar, show)
}

/// Whether the analog clock shows (default on).
pub fn clock_visible(stored: Option<u32>) -> (r: bool)
    ensures
        r == flag_of(stored, true),
{
    bool_setting_value(stored, true)
}

pub fn set_clock_visible(show: bool) -> (r: SettingWrite)
    ensures
        r == write_of(Setting::ShowAnalogClock, show),
{
    write_bool_setting(Setting::ShowAnalogClock, show)
}

/// Whether the clock has a second hand (default on).
pub fn clock_second_hand_visible(stored: Option<u32>) -> (r: bool)
    ensures
        r == flag_of(stored, true),
{
    bool_setting_value(stored, true)
}

pub fn set_clock_second_hand_visible(show: bool) -> (r: SettingWrite)
    ensures
        r == write_of(Setting::ShowClockSecondHand, show),
{
    write_bool_setting(Setting::ShowClockSecondHand, show)
}

/// Whether the quota panel is open (default closed).
pub fn live_status_quota_open(stored: Option<u32>) -> (r: bool)
    ensures
        r == flag_of(stored, false),
{
    bool_setting_value(stored, false)
}

pub fn set_live_status_quota_open(open: bool) -> (r: SettingWrite)
    ensures
        r == write_of(Setting::LiveStatusQuotaOpen, open),
{
    write_bool_setting(Setting::LiveStatusQuotaOpen, open)
}

/// Whether the quota settings are open (default closed).
pub fn live_status_quota_settings_open(stored: Option<u32>) -> (r: bool)
    ensures
        r == flag_of(stored, false),
{
    bool_setting_value(stored, false)
}

pub fn set_live_status_quota_settings_open(open: bool) -> (r: SettingWrite)
    ensures
        r == write_of(Setting::LiveStatusQuotaSettingsOpen, open),
{
    write_bool_setting(Setting::LiveStatusQuotaSettingsOpen, open)
}

/// Whether the quota panel is docked to the live window (default docked).
pub fn live_status_quota_docked(stored: Option<u32>) -> (r: bool)
    ensures
        r == flag_of(stored, true),
{
    bool_setting_value(stored, true)
}

pub fn set_live_status_quota_docked(docked: bool) -> (r: SettingWrite)
    ensures
        r == write_of(Setting::LiveStatusQuotaDocked, docked),
{
    write_bool_setting(Setting::LiveStatusQuotaDocked, docked)
}

/// Whether the GLM quota shows (default on).
pub fn live_status_quota_show_glm(stored: Option<u32>) -> (r: bool)
    ensures
        r == flag_of(stored, true),
{
    bool_setting_value(stored, true)
}

pub fn set_live_status_quota_show_glm(show: bool) -> (r: SettingWrite)
    ensures
        r == write_of(Setting::LiveStatusQuotaShowGlm, show),
{
    write_bool_setting(Setting::LiveStatusQuotaShowGlm, show)
}

/// Whether the Antigravity quota shows (default on).
pub fn live_status_quota_show_agi(stored: Option<u32>) -> (r: bool)
    ensures
        r == flag_of(stored, true),
{
    bool_setting_value(stored, true)
}

pub fn set_live_status_quota_show_agi(show: bool) -> (r: SettingWrite)
    ensures
        r == write_of(Setting::LiveStatusQuotaShowAgi, show),
{
    write_bool_setting(Setting::LiveStatusQuotaShowAgi, show)
}

/// Whether the Codex quota shows (default on).
pub fn live_status_quota_show_codex(stored: Option<u32>) -> (r: bool)
    ensures
        r == flag_of(stored, true),
{
    bool_setting_value(stored, true)
}

pub fn set_live_status_quota_show_codex(show: bool) -> (r: SettingWrite)
    ensures
        r == write_of(Setting::LiveStatusQuotaShowCodex, show),
{
    write_bool_setting(Setting::LiveStatusQuotaShowCodex, show)
}

/// Whether the quota of Anthropic's model shows (default off).
pub fn live_status_quota_show_claude(stored: Option<u32>) -> (r: bool)
    ensures
        r == flag_of(stored, false),
{
    bool_setting_value(stored, false)
}

pub fn set_live_status_quota_show_claude(show: bool) -> (r: SettingWrite)
    ensures
        r == write_of(Setting::LiveStatusQuotaShowClaude, show),
{
    write_bool_setting(Setting::LiveStatusQuotaShowClaude, show)
}

// ---------------------------------------------------------------------------
// Repaint interval
// ---------------------------------------------------------------------------

pub const DEFAULT_REPAINT_INTERVAL_MS: u32 = 250;

/// The offered repaint intervals: 250, 500 and 1000 ms.
pub open spec fn offered_interval(value: int) -> bool {
    value == 250 || value == 500 || value == 1000
}

/// The offered repaint intervals in menu order.
pub fn repaint_interval_choices() -> (r: Vec<u32>)
    ensures
        r@ == seq![250u32, 500, 1000],
{
    vec![250u32, 500, 1000]
}

/// The repaint interval that a stored value reads as: an offered interval as
/// it is, anything else (or nothing) as the default.
pub fn clamp_repaint_interval_ms(value: Option<u32>) -> (r: u32)
    ensures
        r == (match value {
            Some(v) => if offered_interval(v as int) {
                v
            } else {
                DEFAULT_REPAINT_INTERVAL_MS
            },
            None => DEFAULT_REPAINT_INTERVAL_MS,
        }),
{
    match value {
        Some(v) => if v == 250 || v == 500 || v == 1000 {
            v
        } else {
            DEFAULT_REPAINT_INTERVAL_MS
        },
        None => DEFAULT_REPAINT_INTERVAL_MS,
    }
}

/// The live window's repaint interval from the stored value.
pub fn live_status_repaint_interval_ms(stored: Option<u32>) -> (r: u32)
    ensures
        r == (match stored {
            Some(v) => if offered_interval(v as int) {
                v
            } else {
                DEFAULT_REPAINT_INTERVAL_MS
            },
            None => DEFAULT_REPAINT_INTERVAL_MS,
        }),
{
    clamp_repaint_interval_ms(stored)
}

/// A repaint interval that is not one of the offered choices.
#[derive(Clone, Copy, Debug, PartialEq, Eq, Structural)]
pub struct UnsupportedRepaintInterval {
    pub value: u32,
}

/// What choosing a repaint interval writes; an interval that is not offered
/// is refused rather than clamped.
pub fn set_live_status_repaint_interval_ms(value: u32) -> (r: Result<
    SettingWrite,
    UnsupportedRepaintInterval,
>)
    ensures
        offered_interval(value as int) ==> r == Ok::<SettingWrite, UnsupportedRepaintInterval>(
            SettingWrite { setting: Setting::LiveStatusRepaintIntervalMs, value },
        ),
        !offered_interval(value as int) ==> r == Err::<SettingWrite, UnsupportedRepaintInterval>(
            UnsupportedRepaintInterval { value },
        ),
{
    if value == 250 || value == 500 || value == 1000 {
        Ok(SettingWrite { setting: Setting::LiveStatusRepaintIntervalMs, value })
    } else {
        Err(UnsupportedRepaintInterval { value })
    }
}

// ---------------------------------------------------------------------------
// Positions and scale
// ---------------------------------------------------------------------------

/// A stored window position: both coordinates must be there; each 32-bit
/// value is read as a signed pixel coordinate.
pub fn stored_position(x: Option<u32>, y: Option<u32>) -> (r: Option<(i32, i32)>)
    ensures
        r == (match (x, y) {
            (Some(a), Some(b)) => Some((a as i32, b as i32)),
            _ => None,
        }),
{
    match (x, y) {
        (Some(a), Some(b)) => Some((a as i32, b as i32)),
        _ => None,
    }
}

/// The 32-bit values that store a signed pixel coordinate.
pub fn position_to_store(x: i32, y: i32) -> (r: (u32, u32))
    ensures
        r == (x as u32, y as u32),
{
    (x as u32, y as u32)
}

/// A stored coordinate reads back as the coordinate that was stored.
pub proof fn lemma_position_round_trip(x: i32)
    ensures
        (x as u32) as i32 == x,
{
    assert((x as u32) as i32 == x) by (bit_vector);
}

pub const DEFAULT_LIVE_STATUS_SCALE_PERCENT: u32 = 100;
pub const MIN_LIVE_STATUS_SCALE_PERCENT: u32 = 75;
pub const MAX_LIVE_STATUS_SCALE_PERCENT: u32 = 1000;

/// The live window's scale in percent from the stored value, held between
/// 75 % and 1000 %; 100 % when nothing is stored.
pub fn live_status_scale_percent(stored: Option<u32>) -> (r: u32)
    ensures
        r == (match stored {
            Some(v) => if v < 75 {
                75
            } else if v > 1000 {
                1000
            } else {
                v
            },
            None => 100,
        }),
{
    match stored {
        Some(v) => if v < MIN_LIVE_STATUS_SCALE_PERCENT {
            MIN_LIVE_STATUS_SCALE_PERCENT
        } else if v > MAX_LIVE_STATUS_SCALE_PERCENT {
            MAX_LIVE_STATUS_SCALE_PERCENT
        } else {
            v
        },
        None => DEFAULT_LIVE_STATUS_SCALE_PERCENT,
    }
}

/// What resetting the live window's scale writes: 100 %.
pub fn reset_live_status_scale() -> (r: SettingWrite)
    ensures
        r == (SettingWrite { setting: Setting::LiveStatusScale, value: 100 }),
{
    SettingWrite { setting: Setting::LiveStatusScale, value: DEFAULT_LIVE_STATUS_SCALE_PERCENT }
}

// ---------------------------------------------------------------------------
// Quota colors and corner radius
// ---------------------------------------------------------------------------

/// A color index read from storage: at most 9, the default when nothing is
/// stored.
pub open spec fn color_of(stored: Option<u32>, default: u32) -> u8 {
    let v = match stored {
        Some(v) => v,
        None => default,
    };
    if v > 9 {
        9u8
    } else {
        v as u8
    }
}

fn read_color(stored: Option<u32>, default: u32) -> (r: u8)
    ensures
        r == color_of(stored, default),
{
    let v = match stored {
        Some(v) => v,
        None => default,
    };
    if v > 9 {
        9
    } else {
        v as u8
    }
}

/// What choosing a color index writes: the index, at most 9.
pub open spec fn color_write(setting: Setting, idx: u8) -> SettingWrite {
    SettingWrite { setting, value: if idx > 9 { 9u32 } else { idx as u32 } }
}

fn write_color(setting: Setting, idx: u8) -> (r: SettingWrite)
    ensures
        r == color_write(setting, idx),
{
    SettingWrite { setting, value: if idx > 9 { 9 } else { idx as u32 } }
}

/// A written color index reads back as the index, at most 9.
pub proof fn lemma_color_round_trip(setting: Setting, idx: u8, default: u32)
    ensures
        color_of(Some(color_write(setting, idx).value), default) == (if idx > 9 {
            9u8
        } else {
            idx
        }),
{
}

/// Color index of the GLM quota (default 6).
pub fn live_status_quota_color_glm(stored: Option<u32>) -> (r: u8)
    ensures
        r == color_of(stored, 6),
{
    read_color(stored, 6)
}

pub fn set_live_status_quota_color_glm(idx: u8) -> (r: SettingWrite)
    ensures
        r == color_write(Setting::LiveStatusQuotaColorGlm, idx),
{
    write_color(Setting::LiveStatusQuotaColorGlm, idx)
}

/// Color index of the Antigravity quota (default 0).
pub fn live_status_quota_color_agi(stored: Option<u32>) -> (r: u8)
    ensures
        r == color_of(stored, 0),
{
    read_color(stored, 0)
}

pub fn set_live_status_quota_color_agi(idx: u8) -> (r: SettingWrite)
    ensures
        r == color_write(Setting::LiveStatusQuotaColorAgi, idx),
{
    write_color(Setting::LiveStatusQuotaColorAgi, idx)
}

/// Color index of the Codex quota (default 3).
pub fn live_status_quota_color_codex(stored: Option<u32>) -> (r: u8)
    ensures
        r == color_of(stored, 3),
{
    read_color(stored, 3)
}

pub fn set_live_status_quota_color_codex(idx: u8) -> (r: SettingWrite)
    ensures
        r == color_write(Setting::LiveStatusQuotaColorCodex, idx),
{
    write_color(Setting::LiveStatusQuotaColorCodex, idx)
}

/// Color index of the quota of Anthropic's model (default 6).
pub fn live_status_quota_color_claude(stored: Option<u32>) -> (r: u8)
    ensures
        r == color_of(stored, 6),
{
    read_color(stored, 6)
}

pub fn set_live_status_quota_color_claude(idx: u8) -> (r: SettingWrite)
    ensures
        r == color_write(Setting::LiveStatusQuotaColorClaude, idx),
{
    write_color(Setting::LiveStatusQuotaColorClaude, idx)
}

pub const DEFAULT_LIVE_STATUS_CORNER_RADIUS: u8 = 10;
pub const MIN_LIVE_STATUS_CORNER_RADIUS: u8 = 0;
pub const MAX_LIVE_STATUS_CORNER_RADIUS: u8 = 20;

/// The corner-radius presets offered in the menu.
pub fn corner_radius_presets() -> (r: Vec<u8>)
    ensures
        r@ == seq![0u8, 4, 8, 10, 14, 18],
{
    vec![0u8, 4, 8, 10, 14, 18]
}

/// A corner radius held between 0 and 20 pixels.
pub fn clamp_corner_radius(radius: u8) -> (r: u8)
    ensures
        r == clamped_radius(radius),
{
    if radius > MAX_LIVE_STATUS_CORNER_RADIUS {
        MAX_LIVE_STATUS_CORNER_RADIUS
    } else if radius < MIN_LIVE_STATUS_CORNER_RADIUS {
        MIN_LIVE_STATUS_CORNER_RADIUS
    } else {
        radius
    }
}

/// The corner radius that a stored value reads as: at most 20, 10 when
/// nothing is stored.
pub open spec fn corner_radius_read(stored: Option<u32>) -> u8 {
    match stored {
        Some(v) => if v > 20 {
            20u8
        } else {
            v as u8
        },
        None => 10u8,
    }
}

/// A corner radius held between 0 and 20.
pub open spec fn clamped_radius(radius: u8) -> u8 {
    if radius > 20 {
        20u8
    } else {
        radius
    }
}

/// The live window's corner radius from the stored value.
pub fn live_status_corner_radius(stored: Option<u32>) -> (r: u8)
    ensures
        r == corner_radius_read(stored),
{
    let v = match stored {
        Some(v) => v,
        None => DEFAULT_LIVE_STATUS_CORNER_RADIUS as u32,
    };
    if v > MAX_LIVE_STATUS_CORNER_RADIUS as u32 {
        MAX_LIVE_STATUS_CORNER_RADIUS
    } else {
        v as u8
    }
}

/// What choosing a corner radius writes: the radius held between 0 and 20.
pub fn set_live_status_corner_radius(radius: u8) -> (r: SettingWrite)
    ensures
        r.setting == Setting::LiveStatusCornerRadius,
        r.value == clamped_radius(radius),
{
    SettingWrite {
        setting: Setting::LiveStatusCornerRadius,
        value: clamp_corner_radius(radius) as u32,
    }
}

/// A written corner radius reads back as the clamped radius.
pub proof fn lemma_corner_radius_round_trip(radius: u8, written: SettingWrite)
    requires
        written.value == clamped_radius(radius),
    ensures
        corner_radius_read(Some(written.value)) == clamped_radius(radius),
{
}

/// A written opacity reads back as the opacity chosen when it is offered,
/// and as fully opaque otherwise.
pub proof fn lemma_opacity_round_trip(value: u8, written: SettingWrite)
    requires
        written.value == opacity_of(value as int),
    ensures
        opacity_read(Some(written.value)) == opacity_of(value as int),
        offered_opacity(value as int) ==> opacity_read(Some(written.value)) == value,
{
}

} // verus!
