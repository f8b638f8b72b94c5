//! Extended window styles that decide whether the live window and its
//! satellite show a taskbar tab.
use vstd::prelude::*;

verus! {

/// The value of windows-sys's `WS_EX_TOOLWINDOW` (128 in its source).
#[verifier::external_body]
fn ws_ex_toolwindow() -> (r: u32)
    ensures
        r == 0x80u32,
{
    windows_sys::Win32::UI::WindowsAndMessaging::WS_EX_TOOLWINDOW
}

/// The value of windows-sys's `WS_EX_APPWINDOW` (262144 in its source).
#[verifier::external_body]
fn ws_ex_appwindow() -> (r: u32)
    ensures
        r == 0x40000u32,
{
    windows_sys::Win32::UI::WindowsAndMessaging::WS_EX_APPWINDOW
}

/// The tool-window bit: a window with it gets no taskbar tab.
pub open spec fn tool_bit() -> u32 {
    0x80u32
}

/// The app-window bit: a window with it always gets a taskbar tab.
pub open spec fn app_bit() -> u32 {
    0x40000u32
}

/// The extended style with a taskbar tab (app bit set, tool bit cleared) or
/// without one (tool bit set, app bit cleared); every other bit stays.
pub open spec fn taskbar_style(current: u32, visible: bool) -> u32 {
    if visible {
        (current & !tool_bit()) | app_bit()
    } else {
        (current | tool_bit()) & !app_bit()
    }
}

/// Whether a style already shows (or hides) the taskbar tab as asked.
pub open spec fn taskbar_synced(current: u32, visible: bool) -> bool {
    let has_tool = current & tool_bit() != 0;
    let has_app = current & app_bit() != 0;
    if visible {
        !has_tool && has_app
    } else {
        has_tool && !has_app
    }
}

/// The extended style that gives the live window a taskbar tab when
/// `visible`, and hides it otherwise.
pub fn target_taskbar_ex_style(current_ex: u32, visible: bool) -> (r: u32)
    ensures
        r == taskbar_style(current_ex, visible),
{
    let tool = ws_ex_toolwindow();
    let app = ws_ex_appwindow();
    if visible {
        (current_ex & !tool) | app
    } else {
        (current_ex | tool) & !app
    }
}

/// The extended style of the satellite window, which never has a tab.
pub fn target_satellite_ex_style(current_ex: u32) -> (r: u32)
    ensures
        r == taskbar_style(current_ex, false),
{
    let tool = ws_ex_toolwindow();
    let app = ws_ex_appwindow();
    (current_ex | tool) & !app
}

/// Whether the live window's style already matches the wanted taskbar
/// visibility.
pub fn check_taskbar_style_synced(current_ex: u32, visible: bool) -> (r: bool)
    ensures
        r == taskbar_synced(current_ex, visible),
{
    let has_tool = (current_ex & ws_ex_toolwindow()) != 0;
    let has_app = (current_ex & ws_ex_appwindow()) != 0;
    if visible {
        !has_tool && has_app
    } else {
        has_tool && !has_app
    }
}

/// Whether the satellite window's style already keeps it off the taskbar.
pub fn check_satellite_exempt_synced(current_ex: u32) -> (r: bool)
    ensures
        r == taskbar_synced(current_ex, false),
{
    let has_tool = (current_ex & ws_ex_toolwindow()) != 0;
    let has_app = (current_ex & ws_ex_appwindow()) != 0;
    has_tool && !has_app
}

/// The target style is in sync with the visibility it was made for, it keeps
/// every bit but the two taskbar bits, and making it again changes nothing.
pub proof fn lemma_taskbar_style(current: u32, visible: bool)
    ensures
        taskbar_synced(taskbar_style(current, visible), visible),
        taskbar_style(current, visible) & !(0x80u32 | 0x40000u32) == current & !(0x80u32
            | 0x40000u32),
        taskbar_style(taskbar_style(current, visible), visible) == taskbar_style(current, visible),
{
    if visible {
        assert(((current & !0x80u32) | 0x40000u32) & 0x80u32 == 0) by (bit_vector);
        assert(((current & !0x80u32) | 0x40000u32) & 0x40000u32 != 0) by (bit_vector);
        assert(((current & !0x80u32) | 0x40000u32) & !(0x80u32 | 0x40000u32) == current & !(0x80u32
            | 0x40000u32)) by (bit_vector);
        assert(((((current & !0x80u32) | 0x40000u32) & !0x80u32) | 0x40000u32) == ((current
            & !0x80u32) | 0x40000u32)) by (bit_vector);
    } else {
        assert(((current | 0x80u32) & !0x40000u32) & 0x80u32 != 0) by (bit_vector);
        assert(((current | 0x80u32) & !0x40000u32) & 0x40000u32 == 0) by (bit_vector);
        assert(((current | 0x80u32) & !0x40000u32) & !(0x80u32 | 0x40000u32) == current & !(0x80u32
            | 0x40000u32)) by (bit_vector);
        assert(((((current | 0x80u32) & !0x40000u32) | 0x80u32) & !0x40000u32) == ((current
            | 0x80u32) & !0x40000u32)) by (bit_vector);
    }
}

/// A style is in sync for a visibility exactly when making the target style
/// for it leaves the two taskbar bits as they are.
pub proof fn lemma_synced_means_unchanged_taskbar_bits(current: u32, visible: bool)
    ensures
        taskbar_synced(current, visible) <==> taskbar_style(current, visible) == current,
{
    if visible {
        assert(((current & 0x80u32 == 0) && (current & 0x40000u32 != 0)) <==> ((current
            & !0x80u32) | 0x40000u32) == current) by (bit_vector);
    } else {
        assert(((current & 0x80u32 != 0) && (current & 0x40000u32 == 0)) <==> ((current
            | 0x80u32) & !0x40000u32) == current) by (bit_vector);
    }
}

} // verus!
