use herdr_night_watch::backend::{AgentSummary, CompletionAction, WatchStatus};
use herdr_night_watch::language::Language;
use herdr_night_watch::tray::{
    agent_summary, compact_status_line, expected_exit_update, icon_color, menu_action, menu_for,
    night_run_active, notice_plan, parse_u8, power_guard_request, status_line, success_message, tooltip,
    warning_begins, IntErrorKind, MenuItemKind, NoticePlan, TrayAction,
};
use herdr_night_watch::window_settings::WindowLevel;

fn agents(available: bool, total: usize, working: usize) -> AgentSummary {
    AgentSummary { available, total, working, idle: 0, done: 0, blocked: 0, unknown: 0 }
}

fn watching(observe_only: bool, quiet: bool, live_scope: bool) -> WatchStatus {
    WatchStatus::Watching {
        targets: 3,
        live_scope,
        observe_only,
        quiet,
        demo: false,
        agents: agents(true, 4, 2),
        completion_action: CompletionAction::Shutdown,
        warning_seconds: 300,
    }
}

#[test]
fn status_lines_describe_the_run() {
    let off = WatchStatus::Off {
        agents: agents(false, 0, 0),
        completion_action: CompletionAction::Sleep,
        warning_seconds: 300,
    };
    assert_eq!(status_line(&off, Language::German), "● Aus - kein Nachtlauf aktiv - Herdr nicht erreichbar");
    assert_eq!(status_line(&off, Language::English), "● Off - no night run active - Herdr unavailable");
    assert_eq!(
        status_line(&watching(false, true, false), Language::English),
        "● Nachtmodus: 3 überwacht - Ruhezeit läuft - Herdr: 4 detected, 2 working"
    );
    assert_eq!(compact_status_line(&watching(true, false, true), Language::German), "Beobachtung · alle Herdr-Agenten · Herdr 2/4 aktiv");
    assert_eq!(compact_status_line(&watching(false, false, false), Language::German), "Nacht · 3 Ziel · Herdr 2/4 aktiv");
    assert_eq!(tooltip(&off, None, Language::English), "Herdr Night Watch\nAus · Herdr nicht erreichbar");
    assert_eq!(agent_summary(&agents(true, 5, 1), Language::German), "Herdr: 5 erkannt, 1 arbeitet");
}

#[test]
fn icon_color_follows_the_status() {
    let finished = WatchStatus::Finished {
        outcome: "shutdown confirmed".into(),
        agents: agents(true, 1, 0),
        completion_action: CompletionAction::Shutdown,
        warning_seconds: 300,
    };
    assert_eq!(icon_color(&finished), (148, 163, 184));
    assert_eq!(icon_color(&watching(true, false, false)), (59, 130, 246));
    assert_eq!(icon_color(&watching(false, true, false)), (245, 158, 11));
    assert_eq!(icon_color(&watching(false, false, false)), (34, 197, 94));
    let off = WatchStatus::Off {
        agents: agents(true, 1, 0),
        completion_action: CompletionAction::Sleep,
        warning_seconds: 300,
    };
    assert_eq!(icon_color(&off), (148, 163, 184));
    let warning = WatchStatus::ShutdownWarning {
        targets: 1,
        live_scope: false,
        demo: false,
        observe_only: false,
        warning_seconds: 300,
        seconds_remaining: 60,
        agents: agents(true, 1, 0),
        completion_action: CompletionAction::Shutdown,
        network_triggered: false,
    };
    assert_eq!(icon_color(&warning), (248, 113, 113));
}

#[test]
fn menu_ids_name_their_commands() {
    assert_eq!(menu_action("start"), Some(TrayAction::Start));
    assert_eq!(menu_action("quit"), Some(TrayAction::Quit));
    assert_eq!(menu_action("window_opacity_70"), Some(TrayAction::WindowOpacity(70)));
    assert_eq!(menu_action("window_opacity_window_opacity_40"), Some(TrayAction::WindowOpacity(40)));
    assert_eq!(menu_action("window_opacity_"), Some(TrayAction::InvalidOpacity(IntErrorKind::Empty)));
    assert_eq!(menu_action("window_opacity_300"), Some(TrayAction::InvalidOpacity(IntErrorKind::PosOverflow)));
    assert_eq!(menu_action("window_opacity_7x"), Some(TrayAction::InvalidOpacity(IntErrorKind::InvalidDigit)));
    assert_eq!(menu_action("unknown"), None);
    assert_eq!(success_message("window_opacity_70", TrayAction::WindowOpacity(70), Language::German), "Fenstertransparenz auf 70 % gesetzt");
    assert_eq!(success_message("window_opacity_70", TrayAction::WindowOpacity(70), Language::English), "Window opacity set to 70%");
    assert_eq!(success_message("start", TrayAction::Start, Language::English), "Nachtmodus gestartet");
}

#[test]
fn byte_parsing_matches_the_standard_library() {
    for text in ["0", "255", "256", "+7", "-1", "+", "-", "", "12a", "99999x", "0007", " 5"] {
        let chars: Vec<char> = text.chars().collect();
        let expected = match text.parse::<u8>() {
            Ok(v) => Ok(v),
            Err(e) => Err(match e.kind() {
                std::num::IntErrorKind::Empty => IntErrorKind::Empty,
                std::num::IntErrorKind::PosOverflow => IntErrorKind::PosOverflow,
                _ => IntErrorKind::InvalidDigit,
            }),
        };
        assert_eq!(parse_u8(&chars), expected, "{text:?}");
    }
}

#[test]
fn sleep_lock_and_exit_marker_follow_the_status() {
    let warning = WatchStatus::ShutdownWarning {
        targets: 1,
        live_scope: false,
        demo: false,
        observe_only: false,
        warning_seconds: 300,
        seconds_remaining: 120,
        agents: agents(true, 1, 0),
        completion_action: CompletionAction::Shutdown,
        network_triggered: false,
    };
    assert!(night_run_active(&warning));
    assert_eq!(expected_exit_update(&warning), Some(true));
    assert_eq!(expected_exit_update(&watching(false, false, false)), Some(false));
    assert!(warning_begins(&watching(false, false, false), &warning));
    assert!(!warning_begins(&warning, &warning));
    assert_eq!(power_guard_request(&warning, Some(true)), None);
    assert_eq!(power_guard_request(&warning, None), Some(true));
}

#[test]
fn menu_offers_stop_only_while_a_run_is_active() {
    let menu = menu_for(&watching(false, false, false), Some("Hallo"), true, Language::English, false, 70, WindowLevel::AlwaysOnTop);
    let find = |id: &str| menu.iter().find(|e| e.id == id).expect(id);
    assert!(!find("start").enabled);
    assert!(find("stop").enabled);
    assert_eq!(find("message").label, "Hallo");
    assert_eq!(find("window_opacity_70").kind, MenuItemKind::Check(true));
    assert_eq!(find("window_opacity_100").label, "100% (opaque)");
    assert_eq!(find("window_level_top").kind, MenuItemKind::Check(true));
    assert_eq!(find("autostart").kind, MenuItemKind::Check(true));
    assert_eq!(menu.last().unwrap().label, "Quit tray app");
    assert_eq!(menu.len(), 39);
}

fn countdown(demo: bool, observe_only: bool) -> WatchStatus {
    WatchStatus::ShutdownWarning {
        targets: 2,
        live_scope: true,
        demo,
        observe_only,
        warning_seconds: 300,
        seconds_remaining: 120,
        agents: agents(true, 2, 0),
        completion_action: CompletionAction::Sleep,
        network_triggered: false,
    }
}

#[test]
fn only_a_real_countdown_asks_to_act_now() {
    assert_eq!(notice_plan(&countdown(false, false)), NoticePlan::Ask);
    assert_eq!(notice_plan(&countdown(true, false)), NoticePlan::ShowOnly);
    assert_eq!(notice_plan(&countdown(true, true)), NoticePlan::ShowOnly);
    assert_eq!(notice_plan(&countdown(false, true)), NoticePlan::Nothing);
    assert_eq!(notice_plan(&watching(false, false, false)), NoticePlan::Nothing);
}

#[test]
fn sleep_lock_request_settles_after_one_request() {
    let running = watching(false, false, false);
    let first = power_guard_request(&running, None);
    assert_eq!(first, Some(true));
    assert_eq!(power_guard_request(&running, first), None);
    let warning = countdown(false, false);
    assert_eq!(power_guard_request(&warning, first), None);
    let off = WatchStatus::Off {
        agents: agents(false, 0, 0),
        completion_action: CompletionAction::Sleep,
        warning_seconds: 300,
    };
    assert_eq!(power_guard_request(&off, first), Some(false));
    assert_eq!(power_guard_request(&off, Some(false)), None);
}
