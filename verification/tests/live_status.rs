use herdr_night_watch::live_status::{
    after_attempt, clamp_live_position, context_menu_should_close_after_selection,
    existing_window_disposition, format_countdown, is_dummy_event_target_window,
    is_helper_window_class, is_live_window_candidate, is_live_window_title,
    is_ready_live_window, is_showable_live_window, live_window_attempt_can_retry,
    no_window_timeout_detail, open_failure_event, panic_event, parse_owner_pid, refresh_is_due,
    score_live_window_facts, truncate_media_text, unpainted_timeout_detail,
    untitled_window_can_be_live, watch_step, AttemptOutcome, AttemptStep, ChildState,
    DuplicateInstanceDisposition, ExistingWindowDisposition, LiveWindowFacts, WatchDecision,
    WatchObservation, WorkArea, LIVE_WINDOW_GUARD_RETRY_DELAY_SECS, LIVE_WINDOW_RETRY_DELAY_SECS,
    LIVE_WINDOW_START_ATTEMPTS, LIVE_WINDOW_START_TIMEOUT_SECS, LIVE_WINDOW_VISIBLE_TIMEOUT_SECS,
};
use std::time::{Duration, Instant};

#[test]
fn context_menu_closes_after_every_setting_selection() {
    assert!(context_menu_should_close_after_selection(true, false, false));
    assert!(context_menu_should_close_after_selection(false, true, false));
    assert!(context_menu_should_close_after_selection(false, false, true));
    assert!(!context_menu_should_close_after_selection(false, false, false));
}

#[test]
fn live_window_titles_are_recognized() {
    assert!(is_live_window_title("Herdr-Nachtwächter - Live-Status"));
    assert!(is_live_window_title("Herdr Night Watch - Live Status"));
    assert!(!is_live_window_title(""));
    assert!(!is_live_window_title("Herdr-Nachtwächter - Abschlussprotokoll"));
}

#[test]
fn owner_pid_is_read_from_spawn_argument() {
    let args = |list: &[&str]| list.iter().map(|s| s.to_string()).collect::<Vec<String>>();
    assert_eq!(parse_owner_pid(&args(&["--live-status", "--owner-pid=3648"])), Some(3648));
    assert_eq!(parse_owner_pid(&args(&["--live-status"])), None);
    assert_eq!(parse_owner_pid(&args(&["--owner-pid=0"])), None);
    assert_eq!(parse_owner_pid(&args(&["--owner-pid=abc"])), None);
}

#[test]
fn existing_unready_window_is_recovered_unless_this_process_watches_it() {
    assert_eq!(existing_window_disposition(true, Some(41), None), ExistingWindowDisposition::Activate);
    assert_eq!(
        existing_window_disposition(false, Some(41), Some(41)),
        ExistingWindowDisposition::WaitForActiveAttempt
    );
    assert_eq!(
        existing_window_disposition(false, Some(41), Some(99)),
        ExistingWindowDisposition::Replace(Some(41))
    );
    assert_eq!(existing_window_disposition(false, None, None), ExistingWindowDisposition::Replace(None));
}

#[test]
fn timeout_details_follow_their_controlling_constants() {
    assert!(no_window_timeout_detail().contains(&LIVE_WINDOW_START_TIMEOUT_SECS.to_string()));
    assert!(unpainted_timeout_detail().contains(&LIVE_WINDOW_VISIBLE_TIMEOUT_SECS.to_string()));
}

#[test]
fn dummy_event_target_window_is_not_the_live_window() {
    assert!(is_dummy_event_target_window(true, false, 4, 4));
    assert!(is_dummy_event_target_window(false, false, 4, 4));
    assert!(!is_live_window_candidate(true, false, 4, 4));
    assert!(!is_live_window_candidate(false, false, 4, 4));
    assert!(!is_ready_live_window(true, false, 4, 4));
    assert!(!is_showable_live_window(true, false, 4, 4));
}

#[test]
fn tray_helper_window_is_never_the_live_window() {
    let tray_helper = LiveWindowFacts {
        title: String::new(),
        class: "tray_icon_app".into(),
        visible: true,
        minimized: false,
        width: 1920,
        height: 1025,
        pid: 3648,
    };
    assert!(is_helper_window_class(&tray_helper.class));
    assert!(score_live_window_facts(&tray_helper, None, Some(3648)).is_none());
    assert!(score_live_window_facts(&tray_helper, None, None).is_none());
}

#[test]
fn winit_and_ime_helpers_are_never_the_live_window() {
    for class in ["Winit Thread Event Target", "MSCTFIME UI", "IME"] {
        let helper = LiveWindowFacts {
            title: String::new(),
            class: class.into(),
            visible: true,
            minimized: false,
            width: 4,
            height: 4,
            pid: 10,
        };
        assert!(score_live_window_facts(&helper, Some(10), None).is_none());
    }
}

#[test]
fn titled_live_window_beats_same_process_helpers() {
    let live = LiveWindowFacts {
        title: "Herdr-Nachtwächter - Live-Status".into(),
        class: "Window Class".into(),
        visible: false,
        minimized: false,
        width: 393,
        height: 190,
        pid: 99,
    };
    assert_eq!(score_live_window_facts(&live, None, Some(3648)), Some((2, 393 * 190)));
    assert!(score_live_window_facts(&live, None, Some(99)).is_none());
}

#[test]
fn hidden_zero_size_titled_window_can_be_shown() {
    assert!(is_live_window_candidate(false, false, 0, 0));
    assert!(is_showable_live_window(false, false, 0, 0));
    assert!(!untitled_window_can_be_live(false, false, 0, 0));
}

#[test]
fn hidden_real_window_is_a_candidate_and_can_be_shown() {
    assert!(is_live_window_candidate(false, false, 393, 190));
    assert!(!is_ready_live_window(false, false, 393, 190));
    assert!(is_showable_live_window(false, false, 393, 190));
    assert!(untitled_window_can_be_live(false, false, 1920, 1025));
    assert!(!untitled_window_can_be_live(true, false, 4, 4));
}

#[test]
fn painted_or_minimized_live_window_is_ready() {
    assert!(is_ready_live_window(true, false, 393, 190));
    assert!(is_ready_live_window(false, true, 4, 4));
    assert!(is_live_window_candidate(false, true, 4, 4));
}

#[test]
fn panic_and_open_failure_events_stay_distinguishable() {
    assert_ne!(panic_event(), open_failure_event());
}

#[test]
fn missing_refresh_timestamp_is_due_immediately() {
    assert!(refresh_is_due(None, Duration::from_secs(600), Instant::now()));
}

#[test]
fn refresh_is_due_once_the_interval_has_passed() {
    let earlier = Instant::now();
    let later = earlier + Duration::from_secs(5);
    assert!(!refresh_is_due(Some(earlier), Duration::from_secs(600), later));
    assert!(refresh_is_due(Some(earlier), Duration::from_secs(5), later));
    assert!(refresh_is_due(Some(earlier), Duration::from_secs(3), later));
    assert!(!refresh_is_due(Some(later), Duration::from_secs(1), earlier));
    assert!(refresh_is_due(Some(later), Duration::ZERO, earlier));
}

#[test]
fn guard_retry_outlives_the_regular_spawn_retry() {
    assert!(LIVE_WINDOW_GUARD_RETRY_DELAY_SECS > LIVE_WINDOW_RETRY_DELAY_SECS);
}

#[test]
fn final_live_window_attempt_cannot_spawn_an_unwatched_child() {
    assert!(live_window_attempt_can_retry(1));
    assert!(live_window_attempt_can_retry(2));
    assert!(!live_window_attempt_can_retry(LIVE_WINDOW_START_ATTEMPTS));
}

#[test]
fn duplicate_instance_without_ready_window_requests_retry() {
    assert_eq!(
        herdr_night_watch::live_status::duplicate_instance_disposition::<u32>(None, false),
        DuplicateInstanceDisposition::Retry
    );
    assert_eq!(
        herdr_night_watch::live_status::duplicate_instance_disposition(Some(7u32), false),
        DuplicateInstanceDisposition::Retry
    );
    assert_eq!(
        herdr_night_watch::live_status::duplicate_instance_disposition(Some(7u32), true),
        DuplicateInstanceDisposition::Activate(7)
    );
}

#[test]
fn saved_position_on_an_attached_monitor_stays_untouched() {
    let areas = [
        WorkArea { left: 0, top: 0, right: 2560, bottom: 1392 },
        WorkArea { left: -2560, top: 0, right: 0, bottom: 1392 },
    ];
    assert_eq!(clamp_live_position(Some((-595, 41)), 393, 190, &areas), Some((-595, 41)));
}

#[test]
fn position_of_a_missing_monitor_clamps_to_nearest_work_area() {
    let areas = [
        WorkArea { left: 0, top: 0, right: 2560, bottom: 1392 },
        WorkArea { left: -2560, top: 0, right: 0, bottom: 1392 },
    ];
    assert_eq!(clamp_live_position(Some((-3000, 41)), 393, 190, &areas), Some((-2560, 41)));
}

#[test]
fn clamped_position_keeps_the_window_inside_the_work_area() {
    let areas = [WorkArea { left: 0, top: 0, right: 300, bottom: 200 }];
    assert_eq!(clamp_live_position(Some((900, 150)), 393, 190, &areas), Some((0, 10)));
}

#[test]
fn origin_inside_an_area_still_clamps_an_oversized_window() {
    let areas = [WorkArea { left: 0, top: 0, right: 300, bottom: 200 }];
    assert_eq!(clamp_live_position(Some((150, 41)), 393, 190, &areas), Some((0, 10)));
}

#[test]
fn missing_areas_or_missing_save_use_default_placement() {
    let areas = [WorkArea { left: 0, top: 0, right: 2560, bottom: 1392 }];
    assert_eq!(clamp_live_position(Some((10, 10)), 393, 190, &[]), None);
    assert_eq!(clamp_live_position(None, 393, 190, &areas), None);
}

#[test]
fn extreme_coordinates_pick_the_nearest_area_without_overflow() {
    let areas = [
        WorkArea { left: 0, top: 0, right: 2560, bottom: 1392 },
        WorkArea { left: -2560, top: 0, right: 0, bottom: 1392 },
    ];
    assert_eq!(clamp_live_position(Some((i32::MIN, 20)), 393, 190, &areas), Some((-2560, 20)));
}

#[test]
fn nearest_area_wins_on_both_sides_and_at_both_extremes() {
    let areas = [
        WorkArea { left: 0, top: 0, right: 1920, bottom: 1080 },
        WorkArea { left: 1920, top: 0, right: 3840, bottom: 1080 },
    ];
    assert_eq!(clamp_live_position(Some((5000, 100)), 393, 190, &areas), Some((3447, 100)));
    assert_eq!(clamp_live_position(Some((-900, 100)), 393, 190, &areas), Some((0, 100)));
    assert_eq!(clamp_live_position(Some((i32::MIN, i32::MIN)), 393, 190, &areas), Some((0, 0)));
    assert_eq!(clamp_live_position(Some((i32::MAX, i32::MAX)), 393, 190, &areas), Some((3447, 890)));
}

#[test]
fn window_larger_than_the_area_keeps_its_left_and_top_edge_in_it() {
    let areas = [WorkArea { left: 0, top: 0, right: 300, bottom: 100 }];
    assert_eq!(clamp_live_position(Some((10, 10)), 393, 190, &areas), Some((0, 0)));
}

#[test]
fn open_attempts_retry_until_the_last_one() {
    match after_attempt(1, AttemptOutcome::NoWindowTimeout) {
        AttemptStep::Retry { log, delay_secs } => {
            assert!(log.ends_with("; neuer Versuch wird gestartet"));
            assert_eq!(delay_secs, LIVE_WINDOW_RETRY_DELAY_SECS);
        }
        other => panic!("unexpected {other:?}"),
    }
    match after_attempt(2, AttemptOutcome::UnpaintedTimeout) {
        AttemptStep::Retry { delay_secs, .. } => {
            assert_eq!(delay_secs, LIVE_WINDOW_GUARD_RETRY_DELAY_SECS)
        }
        other => panic!("unexpected {other:?}"),
    }
    match after_attempt(3, AttemptOutcome::Exited("exit code 1".into())) {
        AttemptStep::GiveUp(detail) => assert_eq!(detail, "exit code 1"),
        other => panic!("unexpected {other:?}"),
    }
    assert!(matches!(after_attempt(1, AttemptOutcome::Done), AttemptStep::Finish));
}

#[test]
fn watching_a_start_reports_timeouts_and_exits() {
    let observe = |found: bool, ready: bool, child: ChildState, start: u64, since: Option<u64>| {
        watch_step(&WatchObservation {
            window_found: found,
            window_ready: ready,
            child,
            since_start_ms: start,
            since_found_ms: since,
        })
    };
    assert!(matches!(observe(true, true, ChildState::Running, 0, Some(0)), WatchDecision::Ready));
    assert!(matches!(observe(false, false, ChildState::Running, 30_000, None), WatchDecision::NoWindowTimeout));
    assert!(matches!(observe(true, false, ChildState::Running, 90_000, Some(30_000)), WatchDecision::UnpaintedTimeout));
    assert!(matches!(observe(false, false, ChildState::Running, 100, None), WatchDecision::Wait));
    assert!(matches!(observe(false, false, ChildState::ExitedCleanly, 100, None), WatchDecision::ExitedCleanly));
    match observe(false, false, ChildState::Exited("exit code: 3".into()), 100, None) {
        WatchDecision::Exited(detail) => assert_eq!(
            detail,
            "Live-Status-Prozess wurde beendet, bevor ein Fenster sichtbar wurde (exit code: 3)"
        ),
        other => panic!("unexpected {other:?}"),
    }
}

#[test]
fn countdown_and_media_text_formats() {
    assert_eq!(format_countdown(125), "2:05");
    assert_eq!(format_countdown(0), "0:00");
    assert_eq!(truncate_media_text("Song", 10), "Song");
    assert_eq!(truncate_media_text("Long song title", 5), "Long…");
    assert_eq!(truncate_media_text("Lied", 0), "…");
}

#[test]
fn dummy_sized_window_never_scores_even_with_the_live_title() {
    let dummy = LiveWindowFacts {
        title: "Herdr Night Watch - Live Status".into(),
        class: "Window Class".into(),
        visible: true,
        minimized: false,
        width: 4,
        height: 4,
        pid: 10,
    };
    assert!(score_live_window_facts(&dummy, None, None).is_none());
    let shown = LiveWindowFacts { width: 393, height: 190, ..dummy };
    assert_eq!(score_live_window_facts(&shown, None, None), Some((2, 393 * 190)));
}
