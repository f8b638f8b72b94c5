use herdr_night_watch::log_viewer::{
    display_date_time, is_tray_entry, localized_action, localized_action_kind,
    localized_trigger, newest_entries, parse_log_entries, result_kind, split_sections,
    LogEntry, ResultKind,
};
use herdr_night_watch::language::Language;
use herdr_night_watch::tray_history::{
    append_row, compact_timestamp, csv_safe, format_timestamp, history_contents, history_row,
    history_rows, history_tail, previous_exit_was_unexpected, read_tail, session_id,
    set_expected_exit, SessionMarker, HISTORY_LIMIT,
};

#[test]
fn history_keeps_the_thirty_newest_rows() {
    let mut rows: Vec<String> = (0..30).map(|i| format!("row {i}")).collect();
    append_row(&mut rows, "new".to_string());
    assert_eq!(rows.len(), HISTORY_LIMIT);
    assert_eq!(rows[0], "row 1");
    assert_eq!(rows.last().unwrap(), "new");
    let mut few = vec!["a".to_string()];
    append_row(&mut few, "b".to_string());
    assert_eq!(few, vec!["a".to_string(), "b".to_string()]);
}

#[test]
fn history_file_round_trip() {
    let rows = vec![history_row("2026-01-02 03:04:05", "Tray-App unplanmäßig beendet", "x;y\nz", "tray-1")];
    assert_eq!(rows[0], "2026-01-02 03:04:05;Tray-App unplanmäßig beendet;x y z;tray-1");
    let text = history_contents(&rows);
    assert_eq!(text, "Datum und Uhrzeit;Aktion;Auslöser;Lauf-ID\n2026-01-02 03:04:05;Tray-App unplanmäßig beendet;x y z;tray-1\n");
    assert_eq!(history_rows(&text), rows);
    assert_eq!(history_contents(&Vec::new()), "Datum und Uhrzeit;Aktion;Auslöser;Lauf-ID\n");
    assert_eq!(csv_safe("a;b\r\n"), "a b  ");
    assert_eq!(read_tail("h\nlast\n\n  \n"), Some("last".to_string()));
    assert_eq!(read_tail(""), None);
}

#[test]
fn unexpected_exit_is_detected_unless_the_power_action_was_logged() {
    let mut marker = SessionMarker {
        session_id: "tray-1".into(),
        started_at: "2026-01-01 00:00:00".into(),
        expected_exit: false,
        expected_history_tail: None,
    };
    assert!(previous_exit_was_unexpected(&marker, &None));
    let tail = history_tail(Some("row a".into()), None);
    assert_eq!(tail.as_deref(), Some("completion=row a;cancellation="));
    set_expected_exit(&mut marker, true, tail.clone());
    assert!(previous_exit_was_unexpected(&marker, &tail));
    let later = history_tail(Some("row b".into()), None);
    assert!(!previous_exit_was_unexpected(&marker, &later));
    assert_eq!(history_tail(None, None), None);
}

#[test]
fn timestamps_are_padded_and_compacted() {
    let ts = format_timestamp(2026, 3, 4, 5, 6, 7);
    assert_eq!(ts, "2026-03-04 05:06:07");
    assert_eq!(compact_timestamp(&ts), "20260304050607");
    assert_eq!(session_id("20260304050607", 42), "tray-20260304050607-42");
}

#[test]
fn log_entries_are_split_sorted_and_localized() {
    let text = "Datum;Aktion;Auslöser;ID\n2026-01-02 10:00:00;Energiesparmodus angefordert;Herdr-Agenten fertig;r1\nkaputt\n2026-01-03 09:00:00;Tray-App unplanmäßig beendet;Vorherige Sitzung ohne sauberes Ende;t1\n2026-01-01 08:00:00;Herunterfahren angefordert;Sofortbestätigung;r2";
    let entries = parse_log_entries(text);
    assert_eq!(entries.len(), 3);
    assert!(is_tray_entry(&entries[1]));
    let (energy, tray) = split_sections(&entries, &Vec::new());
    assert_eq!(energy.len(), 2);
    assert_eq!(tray.len(), 1);
    let sorted = newest_entries(&energy);
    assert_eq!(sorted[0].timestamp, "2026-01-02 10:00:00");
    assert_eq!(sorted[1].timestamp, "2026-01-01 08:00:00");
    let many: Vec<LogEntry> = (0..40)
        .map(|i| LogEntry { timestamp: format!("2026-01-01 00:00:{i:02}"), action: "a".into(), trigger: "t".into(), run_id: "r".into() })
        .collect();
    let newest = newest_entries(&many);
    assert_eq!(newest.len(), 30);
    assert_eq!(newest[0].timestamp, "2026-01-01 00:00:39");
    assert_eq!(newest[29].timestamp, "2026-01-01 00:00:10");
    assert_eq!(display_date_time("2026-1-2 10:00:00", Language::German), ("02.01.2026".to_string(), "10:00:00".to_string()));
    assert_eq!(display_date_time("2026-01-02 10:00:00", Language::English), ("01/02/2026".to_string(), "10:00:00".to_string()));
    assert_eq!(display_date_time("gestern", Language::German), ("gestern".to_string(), String::new()));
    assert_eq!(localized_action_kind("Herunterfahren angefordert", Language::English), "Shutdown");
    assert_eq!(localized_action("Energiesparmodus angefordert", Language::English), "Sleep requested");
    assert_eq!(localized_action("Energiesparmodus angefordert", Language::German), "Energiesparmodus angefordert");
    assert_eq!(localized_trigger("Sofortbestätigung", Language::English), "Immediate confirmation");
    assert_eq!(result_kind("Tray-App unplanmäßig beendet"), ResultKind::Failure);
    assert_eq!(result_kind("Herunterfahren angefordert"), ResultKind::PowerAction);
    assert_eq!(result_kind("Notiz"), ResultKind::Other);
}
