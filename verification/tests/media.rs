use herdr_night_watch::media::{
    merge_refresh, session_snapshot, MediaSchedule, MediaSnapshot, PendingRefresh, RefreshCause,
    RefreshFlags, WorkerAction, WorkerEvent,
};
use std::time::{Duration, Instant};

fn snapshot(is_playing: bool) -> MediaSnapshot {
    MediaSnapshot {
        title: "Song".into(),
        artist: "Artist".into(),
        start_100ns: 0,
        end_100ns: 300_000_000,
        position_100ns: 10_000_000,
        seek_enabled: true,
        is_playing,
        position_sampled_at: Instant::now(),
    }
}

#[test]
fn playing_timeline_advances_without_a_windows_query() {
    assert_eq!(snapshot(true).position_at(Duration::from_secs(2)), 30_000_000);
}

#[test]
fn paused_timeline_stays_at_its_last_known_position() {
    assert_eq!(snapshot(false).position_at(Duration::from_secs(2)), 10_000_000);
}

#[test]
fn notifier_coalesces_repeated_timeline_events() {
    let mut flags = RefreshFlags::new();
    let mut events_sent = 0;
    if flags.notify_timeline() {
        events_sent += 1;
    }
    if flags.notify_timeline() {
        events_sent += 1;
    }
    assert_eq!(events_sent, 1);
    assert_eq!(flags.take_pending(), Some(RefreshCause::Timeline));
    assert_eq!(flags.take_pending(), None);
    assert!(flags.notify_immediate());
}

#[test]
fn playing_timeline_stops_at_the_track_end() {
    let s = snapshot(true);
    assert_eq!(s.position_after(u128::MAX), 300_000_000);
    assert_eq!(s.position_after(5), 10_000_005);
}

#[test]
fn immediate_refresh_wins_over_timeline() {
    let pending = Some(PendingRefresh { cause: RefreshCause::Immediate, due_at_ms: 2_000 });
    assert_eq!(merge_refresh(pending, RefreshCause::Timeline, Some(0), Some(0)), pending);
    let timeline = Some(PendingRefresh { cause: RefreshCause::Timeline, due_at_ms: 5_000 });
    assert_eq!(merge_refresh(timeline, RefreshCause::Timeline, Some(0), Some(100)), timeline);
    assert_eq!(
        merge_refresh(timeline, RefreshCause::Immediate, Some(700), Some(0)),
        Some(PendingRefresh { cause: RefreshCause::Immediate, due_at_ms: 2_700 })
    );
    assert_eq!(
        merge_refresh(None, RefreshCause::Timeline, Some(0), Some(1_000)),
        Some(PendingRefresh { cause: RefreshCause::Timeline, due_at_ms: 6_000 })
    );
}

#[test]
fn session_without_title_and_artist_is_no_media() {
    let now = Instant::now();
    let err = session_snapshot(Some("  ".into()), None, None, None, None, None, false, now).unwrap_err();
    assert_eq!(err, "Mediensession ohne Titel");
    let snap = session_snapshot(None, Some("Band".into()), Some(10), Some(5), Some(99), Some(true), true, now).unwrap();
    assert_eq!(snap.title, "Unbekannter Titel");
    assert_eq!(snap.position_100ns, 10);
    assert!(!snap.seek_enabled);
}

#[test]
fn first_change_is_due_at_once() {
    assert_eq!(
        merge_refresh(None, RefreshCause::Immediate, None, None),
        Some(PendingRefresh { cause: RefreshCause::Immediate, due_at_ms: 0 })
    );
}

#[test]
fn worker_refreshes_on_changes_and_periodically() {
    let mut schedule = MediaSchedule::start(1_000, true);
    assert_eq!(schedule.next_fallback_ms, 31_000);
    assert_eq!(schedule.timeout_ms(1_000), 30_000);
    assert_eq!(schedule.step(WorkerEvent::Changed(Some(RefreshCause::Timeline)), 1_500), WorkerAction::Wait);
    assert_eq!(schedule.timeout_ms(1_500), 0);
    assert_eq!(schedule.step(WorkerEvent::Timeout, 1_600), WorkerAction::Refresh);
    assert_eq!(schedule.last_timeline_refresh_ms, Some(1_600));
    assert_eq!(schedule.pending, None);
    schedule.refreshed(1_600, false);
    assert_eq!(schedule.timeout_ms(1_600), 2_000);
    assert_eq!(schedule.step(WorkerEvent::Changed(Some(RefreshCause::Timeline)), 2_000), WorkerAction::Wait);
    assert_eq!(schedule.pending, Some(PendingRefresh { cause: RefreshCause::Timeline, due_at_ms: 6_600 }));
    assert_eq!(schedule.timeout_ms(2_000), 1_600);
    assert_eq!(schedule.step(WorkerEvent::Timeout, 3_600), WorkerAction::Refresh);
    assert!(schedule.pending.is_some());
    assert_eq!(schedule.step(WorkerEvent::Changed(None), 3_700), WorkerAction::Wait);
    assert_eq!(schedule.step(WorkerEvent::Seek, 3_800), WorkerAction::Refresh);
    assert_eq!(schedule.pending, None);
    assert_eq!(schedule.step(WorkerEvent::Shutdown, 3_900), WorkerAction::Stop);
}
