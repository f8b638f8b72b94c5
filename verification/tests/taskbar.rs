use herdr_night_watch::taskbar::{
    check_satellite_exempt_synced, check_taskbar_style_synced, target_satellite_ex_style,
    target_taskbar_ex_style,
};
use windows_sys::Win32::UI::WindowsAndMessaging::{
    WS_EX_APPWINDOW, WS_EX_LAYERED, WS_EX_TOOLWINDOW, WS_EX_TOPMOST,
};

#[test]
fn taskbar_ex_style_switching() {
    let initial_winit = WS_EX_APPWINDOW;
    let hidden = target_taskbar_ex_style(initial_winit, false);
    assert_eq!(hidden & WS_EX_TOOLWINDOW, WS_EX_TOOLWINDOW);
    assert_eq!(hidden & WS_EX_APPWINDOW, 0);
    assert!(check_taskbar_style_synced(hidden, false));
    assert!(!check_taskbar_style_synced(hidden, true));

    let shown = target_taskbar_ex_style(hidden, true);
    assert_eq!(shown & WS_EX_TOOLWINDOW, 0);
    assert_eq!(shown & WS_EX_APPWINDOW, WS_EX_APPWINDOW);
    assert!(check_taskbar_style_synced(shown, true));
    assert!(!check_taskbar_style_synced(shown, false));
}

#[test]
fn taskbar_ex_style_preserves_other_flags() {
    let complex = WS_EX_APPWINDOW | WS_EX_LAYERED | WS_EX_TOPMOST;
    let hidden = target_taskbar_ex_style(complex, false);
    assert_eq!(hidden & WS_EX_LAYERED, WS_EX_LAYERED);
    assert_eq!(hidden & WS_EX_TOPMOST, WS_EX_TOPMOST);
    assert_eq!(hidden & WS_EX_TOOLWINDOW, WS_EX_TOOLWINDOW);
    assert_eq!(hidden & WS_EX_APPWINDOW, 0);
}

#[test]
fn satellite_ex_style_always_exempt() {
    let default_style = WS_EX_APPWINDOW;
    let sat_style = target_satellite_ex_style(default_style);
    assert_eq!(sat_style & WS_EX_TOOLWINDOW, WS_EX_TOOLWINDOW);
    assert_eq!(sat_style & WS_EX_APPWINDOW, 0);
    assert!(check_satellite_exempt_synced(sat_style));
}

#[test]
fn target_style_needs_no_second_change() {
    for style in [0u32, 0x80, 0x40000, 0x400C8, 0xFFFF_FFFF] {
        for visible in [false, true] {
            let target = target_taskbar_ex_style(style, visible);
            assert_eq!(target_taskbar_ex_style(target, visible), target);
            assert!(check_taskbar_style_synced(target, visible));
            assert_eq!(check_taskbar_style_synced(style, visible), target == style);
        }
    }
    assert_eq!(target_taskbar_ex_style(0x8, true), 0x40008);
    assert_eq!(target_satellite_ex_style(0x40008), 0x88);
}
