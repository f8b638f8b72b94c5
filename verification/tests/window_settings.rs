use herdr_night_watch::window_settings::{
    bool_setting_value, clamp_corner_radius, clamp_repaint_interval_ms, live_status_corner_radius,
    live_status_on_start, live_status_quota_color_glm, live_status_quota_show_claude, opacity,
    set_live_status_corner_radius, set_live_status_quota_color_glm,
    set_live_status_repaint_interval_ms, set_opacity, Setting, UnsupportedRepaintInterval,
    WindowLevel, DEFAULT_LIVE_STATUS_CORNER_RADIUS, DEFAULT_REPAINT_INTERVAL_MS,
};

#[test]
fn bool_setting_value_uses_the_default_and_treats_zero_as_disabled() {
    assert!(bool_setting_value(None, true));
    assert!(!bool_setting_value(Some(0), true));
    assert!(bool_setting_value(Some(1), true));
}

#[test]
fn repaint_interval_accepts_only_the_offered_choices() {
    assert_eq!(clamp_repaint_interval_ms(None), DEFAULT_REPAINT_INTERVAL_MS);
    assert_eq!(clamp_repaint_interval_ms(Some(0)), DEFAULT_REPAINT_INTERVAL_MS);
    assert_eq!(clamp_repaint_interval_ms(Some(333)), DEFAULT_REPAINT_INTERVAL_MS);
    assert_eq!(clamp_repaint_interval_ms(Some(250)), 250);
    assert_eq!(clamp_repaint_interval_ms(Some(500)), 500);
    assert_eq!(clamp_repaint_interval_ms(Some(1000)), 1000);
}

#[test]
fn quota_provider_visibility_constants_are_distinct() {
    let keys = [
        Setting::LiveStatusQuotaShowGlm.value_name(),
        Setting::LiveStatusQuotaShowAgi.value_name(),
        Setting::LiveStatusQuotaShowCodex.value_name(),
        Setting::LiveStatusQuotaShowClaude.value_name(),
    ];
    for (i, a) in keys.iter().enumerate() {
        for (j, b) in keys.iter().enumerate() {
            if i != j {
                assert_ne!(a, b);
            }
        }
    }
}

#[test]
fn quota_provider_color_constants_are_distinct() {
    let keys = [
        Setting::LiveStatusQuotaColorGlm.value_name(),
        Setting::LiveStatusQuotaColorAgi.value_name(),
        Setting::LiveStatusQuotaColorCodex.value_name(),
        Setting::LiveStatusQuotaColorClaude.value_name(),
    ];
    for (i, a) in keys.iter().enumerate() {
        for (j, b) in keys.iter().enumerate() {
            if i != j {
                assert_ne!(a, b);
            }
        }
    }
}

#[test]
fn corner_radius_clamps_properly() {
    assert_eq!(clamp_corner_radius(0), 0);
    assert_eq!(clamp_corner_radius(10), 10);
    assert_eq!(clamp_corner_radius(20), 20);
    assert_eq!(clamp_corner_radius(25), 20);
    assert_eq!(DEFAULT_LIVE_STATUS_CORNER_RADIUS, 10);
}

#[test]
fn written_settings_read_back() {
    let w = set_opacity(70);
    assert_eq!(w.setting, Setting::WindowOpacity);
    assert_eq!(opacity(Some(w.value)), 70);
    assert_eq!(set_opacity(75).value, 100);
    assert_eq!(opacity(Some(300)), 100);
    assert_eq!(opacity(None), 100);
    let c = set_live_status_quota_color_glm(12);
    assert_eq!(c.value, 9);
    assert_eq!(live_status_quota_color_glm(Some(c.value)), 9);
    assert_eq!(live_status_quota_color_glm(None), 6);
    let r = set_live_status_corner_radius(33);
    assert_eq!(live_status_corner_radius(Some(r.value)), 20);
    assert_eq!(live_status_corner_radius(None), 10);
    assert!(!live_status_on_start(None));
    assert!(live_status_on_start(Some(1)));
    assert!(!live_status_on_start(Some(0)));
    assert!(!live_status_quota_show_claude(None));
}

#[test]
fn unsupported_repaint_interval_is_refused() {
    assert_eq!(
        set_live_status_repaint_interval_ms(333),
        Err(UnsupportedRepaintInterval { value: 333 })
    );
    assert_eq!(set_live_status_repaint_interval_ms(500).unwrap().value, 500);
}

#[test]
fn window_level_cycles_and_reads_back() {
    assert_eq!(WindowLevel::Normal.next(), WindowLevel::AlwaysOnTop);
    assert_eq!(WindowLevel::AlwaysOnBottom.next(), WindowLevel::Normal);
    for level in [WindowLevel::Normal, WindowLevel::AlwaysOnTop, WindowLevel::AlwaysOnBottom] {
        assert_eq!(WindowLevel::current(Some(level.setting_value())), level);
    }
    assert_eq!(WindowLevel::current(Some("sideways")), WindowLevel::Normal);
    assert_eq!(WindowLevel::current(None), WindowLevel::Normal);
}

#[test]
fn every_setting_has_its_own_value_name() {
    let all = [
        Setting::WindowOpacity, Setting::WindowLevel, Setting::Language,
        Setting::LiveStatusOnStartup, Setting::ShowLiveStatusInTaskbar, Setting::ShowAnalogClock,
        Setting::ShowClockSecondHand, Setting::LiveStatusPositionX, Setting::LiveStatusPositionY,
        Setting::LiveStatusScale, Setting::LiveStatusRepaintIntervalMs, Setting::LiveStatusQuotaOpen,
        Setting::LiveStatusQuotaDocked, Setting::LiveStatusQuotaPositionX,
        Setting::LiveStatusQuotaPositionY, Setting::LiveStatusQuotaShowGlm,
        Setting::LiveStatusQuotaShowAgi, Setting::LiveStatusQuotaShowCodex,
        Setting::LiveStatusQuotaShowClaude, Setting::LiveStatusQuotaColorGlm,
        Setting::LiveStatusQuotaColorAgi, Setting::LiveStatusQuotaColorCodex,
        Setting::LiveStatusQuotaColorClaude, Setting::LiveStatusCornerRadius,
        Setting::LiveStatusQuotaSettingsOpen,
    ];
    for (i, a) in all.iter().enumerate() {
        for (j, b) in all.iter().enumerate() {
            if i != j {
                assert_ne!(a.value_name(), b.value_name());
            }
        }
    }
    assert_eq!(Setting::LiveStatusOnStartup.value_name(), "OpenLiveStatusOnStartup");
}
