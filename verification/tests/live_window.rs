use herdr_night_watch::backend::{AgentSummary, BackendEnvironment, CompletionAction, WatchStatus};
use herdr_night_watch::language::Language;
use herdr_night_watch::live_status::{
    action_toast, close_pids, completion_controls_enabled, completion_switch_action,
    completion_switch_tooltip, metric_badge, metric_level, night_action_command, moon_phase_name, moon_view, refresh_warning_input,
    warning_seconds_entry, warning_seconds_tooltip, ActionGate, MetricReading, OpenAttempt, OpenAttempts, MetricLevel, MoonTone, NightAction,
    ToastTone,
};

fn agents() -> AgentSummary {
    AgentSummary { available: true, total: 2, working: 1, idle: 1, done: 0, blocked: 0, unknown: 0 }
}

fn off() -> WatchStatus {
    WatchStatus::Off { agents: agents(), completion_action: CompletionAction::Sleep, warning_seconds: 300 }
}

#[test]
fn moon_tooltip_names_state_error_and_click_hint() {
    assert_eq!(
        moon_view(&off(), None, None, Language::English),
        (MoonTone::Gray, "No night run active\nClick to start night mode.".to_string())
    );
    assert_eq!(
        moon_view(&off(), None, Some("timeout"), Language::German),
        (
            MoonTone::Gray,
            "Kein Nachtlauf aktiv\nAktion fehlgeschlagen: timeout\nKlicken, um den Nachtmodus zu starten."
                .to_string()
        )
    );
    let watching = WatchStatus::Watching {
        targets: 1,
        live_scope: false,
        observe_only: false,
        quiet: true,
        demo: false,
        agents: agents(),
        completion_action: CompletionAction::Shutdown,
        warning_seconds: 300,
    };
    assert_eq!(
        moon_view(&watching, None, None, Language::English),
        (
            MoonTone::Yellow,
            "Night mode active - quiet period running\nClick to stop the night run.".to_string()
        )
    );
    let finished = WatchStatus::Finished {
        outcome: "shutdown confirmed".into(),
        agents: agents(),
        completion_action: CompletionAction::Shutdown,
        warning_seconds: 300,
    };
    assert_eq!(moon_view(&finished, None, None, Language::English).0, MoonTone::Gray);
    let working = WatchStatus::Watching {
        targets: 1,
        live_scope: false,
        observe_only: false,
        quiet: false,
        demo: false,
        agents: agents(),
        completion_action: CompletionAction::Shutdown,
        warning_seconds: 300,
    };
    assert_eq!(moon_view(&working, None, None, Language::English).0, MoonTone::Green);
    let observing = WatchStatus::Watching {
        targets: 1,
        live_scope: false,
        observe_only: true,
        quiet: false,
        demo: false,
        agents: agents(),
        completion_action: CompletionAction::Shutdown,
        warning_seconds: 300,
    };
    assert_eq!(moon_view(&observing, None, None, Language::English).0, MoonTone::Accent);
    let warning = WatchStatus::ShutdownWarning {
        targets: 1,
        live_scope: false,
        demo: false,
        observe_only: false,
        warning_seconds: 300,
        seconds_remaining: 120,
        agents: agents(),
        completion_action: CompletionAction::Shutdown,
        network_triggered: false,
    };
    assert_eq!(moon_view(&warning, None, None, Language::English).0, MoonTone::Red);
}

#[test]
fn pending_start_or_stop_replaces_the_moon_tooltip() {
    assert_eq!(
        moon_view(&off(), Some(NightAction::Start), Some("ignored"), Language::English),
        (MoonTone::Green, "Night mode is being enabled …\nPlease wait.".to_string())
    );
    assert_eq!(
        moon_view(&off(), Some(NightAction::Stop), None, Language::German),
        (MoonTone::Gray, "Nachtmodus wird deaktiviert …\nBitte kurz warten.".to_string())
    );
}

#[test]
fn moon_phases_and_metric_levels() {
    assert_eq!(moon_phase_name(0, Language::German), "Neumond");
    assert_eq!(moon_phase_name(4, Language::English), "Full moon");
    assert_eq!(moon_phase_name(7, Language::English), "Waning crescent");
    assert_eq!(metric_level(None), MetricLevel::Unknown);
    assert_eq!(metric_level(Some(39)), MetricLevel::Low);
    assert_eq!(metric_level(Some(40)), MetricLevel::Medium);
    assert_eq!(metric_level(Some(74)), MetricLevel::Medium);
    assert_eq!(metric_level(Some(75)), MetricLevel::High);
}

#[test]
fn only_one_action_runs_at_a_time() {
    let mut gate = ActionGate::new();
    assert!(gate.begin(NightAction::Start));
    assert!(!gate.begin(NightAction::Stop));
    assert_eq!(gate.pending, Some(NightAction::Start));
    gate.finish();
    assert!(!gate.in_progress);
    assert_eq!(gate.pending, None);
    assert!(gate.begin(NightAction::Stop));
}

#[test]
fn toasts_confirm_each_action() {
    assert_eq!(action_toast(NightAction::Start, Language::English), ("Night mode active".to_string(), ToastTone::Green));
    assert_eq!(
        action_toast(NightAction::SetCompletionAction(CompletionAction::Shutdown), Language::German),
        ("Herunterfahren gewählt".to_string(), ToastTone::Red)
    );
    assert_eq!(
        action_toast(NightAction::SetWarningSeconds(120), Language::German),
        ("Warnfrist auf 120 Sekunden gesetzt".to_string(), ToastTone::Accent)
    );
    assert!(refresh_warning_input(false, Some(NightAction::Start)));
    assert!(!refresh_warning_input(true, None));
    assert!(!refresh_warning_input(false, Some(NightAction::SetWarningSeconds(60))));
}

#[test]
fn completion_controls_change_only_outside_a_run() {
    assert!(completion_controls_enabled(&off(), false));
    assert!(!completion_controls_enabled(&off(), true));
    let watching = WatchStatus::Watching {
        targets: 1,
        live_scope: true,
        observe_only: false,
        quiet: false,
        demo: false,
        agents: agents(),
        completion_action: CompletionAction::Sleep,
        warning_seconds: 300,
    };
    assert!(!completion_controls_enabled(&watching, false));
    assert_eq!(
        completion_switch_action(CompletionAction::Sleep),
        NightAction::SetCompletionAction(CompletionAction::Shutdown)
    );
    assert_eq!(
        completion_switch_action(CompletionAction::Shutdown),
        NightAction::SetCompletionAction(CompletionAction::Sleep)
    );
    assert_eq!(
        completion_switch_tooltip(false, CompletionAction::Sleep, Language::English),
        "Sleep after completion\nClick for shutdown."
    );
    assert_eq!(
        completion_switch_tooltip(true, CompletionAction::Sleep, Language::German),
        "Der Abschlussmodus ist für den laufenden Nachtmodus gespeichert.\nStopp den Nachtmodus, um ihn zu ändern."
    );
    assert_eq!(
        warning_seconds_tooltip(false, Language::English),
        "Warning period in seconds for the next night run.\nAllowed: 10 to 3,600 seconds."
    );
}

#[test]
fn warning_period_must_be_ten_to_3600_seconds() {
    assert_eq!(warning_seconds_entry(" 300 ", Language::German), Ok(300));
    assert_eq!(warning_seconds_entry("10", Language::German), Ok(10));
    assert_eq!(warning_seconds_entry("+3600", Language::German), Ok(3600));
    let message = "Die Warnfrist muss zwischen 10 und 3.600 Sekunden liegen.";
    assert_eq!(warning_seconds_entry("9", Language::German), Err(message));
    assert_eq!(warning_seconds_entry("3601", Language::German), Err(message));
    assert_eq!(warning_seconds_entry("", Language::German), Err(message));
    assert_eq!(warning_seconds_entry("5 min", Language::German), Err(message));
    assert_eq!(warning_seconds_entry("-20", Language::German), Err(message));
    assert_eq!(warning_seconds_entry("99999999999999999999999", Language::German), Err(message));
    assert_eq!(
        warning_seconds_entry("0", Language::English),
        Err("The warning period must be between 10 and 3,600 seconds.")
    );
}

#[test]
fn live_window_actions_run_the_watcher_commands() {
    let env = BackendEnvironment { distro: "Ubuntu".into(), codex_home: "/home/user/.codex".into() };
    let stop = night_action_command(&env, NightAction::Stop);
    assert_eq!(stop.program, "powershell.exe");
    assert_eq!(
        stop.args,
        vec![
            "-NoProfile",
            "-ExecutionPolicy",
            "Bypass",
            "-File",
            "\\\\wsl.localhost\\Ubuntu\\home\\user\\.codex\\windows\\Stop-HerdrNightWatch.ps1",
            "-CancelSource",
            "live_window_moon",
        ]
    );
    let start = night_action_command(&env, NightAction::Start);
    assert_eq!(start.args.len(), 5);
    assert_eq!(start.label, "Herdr-Nachtwächter");
    let seconds = night_action_command(&env, NightAction::SetWarningSeconds(120));
    assert_eq!(seconds.program, "wsl.exe");
    assert_eq!(
        seconds.args,
        vec![
            "-d",
            "Ubuntu",
            "--exec",
            "/usr/bin/python3",
            "/home/user/.codex/bin/herdr-night-watch.py",
            "--set-warning-seconds",
            "120",
        ]
    );
    let action = night_action_command(&env, NightAction::SetCompletionAction(CompletionAction::Sleep));
    assert_eq!(action.args[5..], ["--set-completion-action", "sleep"]);
    assert_eq!(action.label, "Abschlussmodus");
}

#[test]
fn stale_attempt_cannot_clear_or_overwrite_a_newer_attempt() {
    let mut attempts = OpenAttempts::new();
    let (first_attempt, replaced) = attempts.begin(0);
    assert_eq!(replaced, None);
    assert!(attempts.may_begin(false, 750));
    let (newer_attempt, replaced) = attempts.begin(750);
    assert_eq!(newer_attempt, first_attempt + 1);
    assert_eq!(replaced.map(|attempt| attempt.id), Some(first_attempt));

    assert!(!attempts.remember_child(first_attempt, 4242));
    assert_eq!(attempts.finish(first_attempt), None);
    assert_eq!(attempts.current.map(|attempt| attempt.id), Some(newer_attempt));
    assert_eq!(attempts.active_child(), None);

    assert_eq!(
        attempts.finish(newer_attempt),
        Some(OpenAttempt { id: newer_attempt, started_at_ms: 750, child_pid: None })
    );
    assert_eq!(attempts.current, None);
}

#[test]
fn open_attempts_wait_for_a_running_child_and_the_debounce() {
    let mut attempts = OpenAttempts::new();
    assert!(attempts.may_begin(true, 0));
    let (id, _) = attempts.begin(1_000);
    assert!(!attempts.may_begin(false, 1_749));
    assert!(attempts.may_begin(false, 1_750));
    assert!(attempts.remember_child(id, 77));
    assert_eq!(attempts.active_child(), Some(77));
    assert_eq!(attempts.last_child_pid, Some(77));
    assert!(!attempts.may_begin(true, 5_000));
    assert!(attempts.may_begin(false, 5_000));
    attempts.finish(id);
    assert_eq!(attempts.last_child_pid, Some(77));
}

#[test]
fn quitting_waits_for_each_child_once_but_never_for_itself() {
    assert_eq!(close_pids(&vec![30, 0, 10, 30, 99], Some(20), Some(10), 99), vec![10, 20, 30]);
    assert_eq!(close_pids(&vec![], None, Some(5), 7), vec![5]);
    assert_eq!(close_pids(&vec![7, 0], Some(0), None, 7), Vec::<u32>::new());
}

#[test]
fn metric_badges_show_values_or_a_dash() {
    assert_eq!(
        metric_badge(MetricReading::Cpu(Some(7)), Language::English),
        ("CPU  7%".to_string(), "CPU utilization:  7%".to_string())
    );
    assert_eq!(
        metric_badge(MetricReading::Ram(Some(100)), Language::German),
        ("RAM 100%".to_string(), "RAM Auslastung: 100%".to_string())
    );
    assert_eq!(
        metric_badge(MetricReading::Vram(Some(42)), Language::German),
        ("VRAM 42%".to_string(), "VRAM-Auslastung: 42%".to_string())
    );
    assert_eq!(
        metric_badge(MetricReading::Power(Some(87)), Language::English),
        (" 87W".to_string(), "GPU power draw:  87W".to_string())
    );
    assert_eq!(
        metric_badge(MetricReading::Power(Some(1234)), Language::English).0,
        "1234W"
    );
    assert_eq!(
        metric_badge(MetricReading::Gpu(None), Language::German),
        ("GPU —".to_string(), "GPU ist momentan nicht verfügbar.".to_string())
    );
    assert_eq!(
        metric_badge(MetricReading::Power(None), Language::English),
        ("—".to_string(), "GPU power draw is unavailable on this hardware.".to_string())
    );
    assert_eq!(
        metric_badge(MetricReading::Vram(None), Language::English).1,
        "VRAM value is currently unavailable."
    );
}
