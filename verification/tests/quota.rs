use herdr_night_watch::language::Language;
use herdr_night_watch::quota::{
    update_snapshot_with_codex_windows, update_snapshot_with_glm_limits, CodexWindow, GlmLimit,
    format_reset_time_phrase, iso_utc_to_local_hm, parse_agy_tsv, parse_hm,
    timezone_offset_from_clocks, update_snapshot_with_agy_tsv, ProviderId, QuotaSnapshot,
    days_until, reset_date, update_snapshot_with_codex_json, parse_codex_rate_limits,
    parse_glm_limits, update_snapshot_with_glm_json,
};

#[test]
fn test_parse_agy_tsv() {
    let tsv = "Gemini Models\tFive Hour Limit Remaining\t98%\t2026-09-18T15:53:00Z\nGemini Models\tWeekly Limit Remaining\t100%\t2026-09-25T10:53:00Z";
    let (five_h, wk) = parse_agy_tsv(tsv).expect("valid parse");
    assert_eq!(five_h, Some(98));
    assert_eq!(wk, Some(100));
}

#[test]
fn test_update_snapshot_with_agy_tsv() {
    let mut snapshot = QuotaSnapshot::measured_baseline();
    let tsv = "Gemini Models\tFive Hour Limit Remaining\t92%\t2026-09-19T13:05:01Z\nGemini Models\tWeekly Limit Remaining\t89%\t2026-09-25T10:53:16Z\nClaude and GPT models\tWeekly Limit Remaining\t100%\t2026-09-26T08:25:40Z\nClaude and GPT models\tFive Hour Limit Remaining\t100%\t2026-09-19T13:25:40Z";
    update_snapshot_with_agy_tsv(&mut snapshot, tsv, 120);
    let agi = snapshot.get(ProviderId::Agy).expect("AGI exists");
    assert_eq!(agi.five_hour_percent, Some(92));
    assert_eq!(agi.week_percent, Some(89));
    assert_eq!(agi.week_reset, Some("25.09. (12:53)".to_string()));
    assert!(agi.five_hour_reset.is_some());
}

#[test]
fn test_format_reset_time_phrase_simon_screenshot() {
    let now_dt = (2026, 9, 23, 12, 36);
    let phrase_de = format_reset_time_phrase(Some("23.09. (19:00)"), false, Language::German, now_dt, 120);
    let phrase_en = format_reset_time_phrase(Some("23.09. (19:00)"), false, Language::English, now_dt, 120);
    assert_eq!(phrase_de, "in ~6h (heute 19:00)");
    assert_eq!(phrase_en, "in ~6h (today 19:00)");
}

#[test]
fn test_format_reset_time_phrase_tomorrow_and_over_weekend() {
    let now_dt = (2026, 9, 23, 12, 36);
    let phrase_tomorrow = format_reset_time_phrase(Some("24.09. (19:00)"), false, Language::German, now_dt, 120);
    assert_eq!(phrase_tomorrow, "in ~30h (24.09. 19:00)");
    let phrase_fri = format_reset_time_phrase(Some("25.09. (12:53)"), false, Language::German, now_dt, 120);
    assert_eq!(phrase_fri, "in ~48h (25.09. 12:53)");
    let phrase_mon = format_reset_time_phrase(Some("28.09. (19:00)"), false, Language::German, now_dt, 120);
    assert_eq!(phrase_mon, "in ~126h (28.09. 19:00)");
}

#[test]
fn test_format_reset_time_phrase_under_one_hour_and_due() {
    let now_dt = (2026, 9, 23, 18, 20);
    let phrase_de = format_reset_time_phrase(Some("23.09. (19:00)"), false, Language::German, now_dt, 120);
    let phrase_en = format_reset_time_phrase(Some("23.09. (19:00)"), false, Language::English, now_dt, 120);
    assert_eq!(phrase_de, "in 40m (heute 19:00)");
    assert_eq!(phrase_en, "in 40m (today 19:00)");
    let now_past = (2026, 9, 23, 19, 5);
    let phrase_due_de = format_reset_time_phrase(Some("23.09. (19:00)"), false, Language::German, now_past, 120);
    let phrase_due_en = format_reset_time_phrase(Some("23.09. (19:00)"), false, Language::English, now_past, 120);
    assert_eq!(phrase_due_de, "in Kürze (19:00)");
    assert_eq!(phrase_due_en, "soon (19:00)");
}

#[test]
fn test_format_reset_time_phrase_five_hour_window() {
    let now_dt = (2026, 9, 23, 12, 36);
    let phrase_5h = format_reset_time_phrase(Some("15:45"), true, Language::German, now_dt, 120);
    assert_eq!(phrase_5h, "in 3h 9m (15:45)");
}

#[test]
fn test_format_reset_time_phrase_date_only_and_month_rollover() {
    let now_dt = (2026, 9, 23, 12, 0);
    let phrase_date_only_de = format_reset_time_phrase(Some("25.09."), false, Language::German, now_dt, 120);
    let phrase_date_only_en = format_reset_time_phrase(Some("25.09."), false, Language::English, now_dt, 120);
    assert_eq!(phrase_date_only_de, "in ~48h (25.09.)");
    assert_eq!(phrase_date_only_en, "in ~48h (25.09.)");
    let now_sept30 = (2026, 9, 30, 20, 0);
    let phrase_oct_de = format_reset_time_phrase(Some("01.10. (14:00)"), false, Language::German, now_sept30, 120);
    let phrase_oct_en = format_reset_time_phrase(Some("01.10. (14:00)"), false, Language::English, now_sept30, 120);
    assert_eq!(phrase_oct_de, "in ~18h (01.10. 14:00)");
    assert_eq!(phrase_oct_en, "in ~18h (01.10. 14:00)");
}

#[test]
fn test_format_reset_time_phrase_english_translations() {
    let now_dt = (2026, 9, 23, 12, 36);
    assert_eq!(format_reset_time_phrase(None, false, Language::German, now_dt, 120), "nicht terminiert");
    assert_eq!(format_reset_time_phrase(None, false, Language::English, now_dt, 120), "no schedule");
    assert_eq!(format_reset_time_phrase(Some("18:00"), true, Language::German, (2026, 9, 23, 12, 0), 120), "um 18:00");
    assert_eq!(format_reset_time_phrase(Some("18:00"), true, Language::English, (2026, 9, 23, 12, 0), 120), "at 18:00");
    let phrase_monthly_de = format_reset_time_phrase(Some("13.10. (12:00)"), false, Language::German, now_dt, 120);
    let phrase_monthly_en = format_reset_time_phrase(Some("13.10. (12:00)"), false, Language::English, now_dt, 120);
    assert_eq!(phrase_monthly_de, "in ~20d (13.10. 12:00)");
    assert_eq!(phrase_monthly_en, "in ~20d (13.10. 12:00)");
    assert_eq!(format_reset_time_phrase(Some("unbekannt"), false, Language::German, now_dt, 120), "in unbekannt");
    assert_eq!(format_reset_time_phrase(Some("unknown"), false, Language::English, now_dt, 120), "in unknown");
}

#[test]
fn test_quota_snapshot_baseline() {
    let snapshot = QuotaSnapshot::measured_baseline();
    assert_eq!(snapshot.providers.len(), 4);
    assert!(!snapshot.has_throttle);

    let glm = snapshot.get(ProviderId::Glm).expect("GLM present");
    assert_eq!(glm.five_hour_percent, Some(76));
    assert_eq!(glm.week_percent, Some(75));
    assert!(!glm.is_throttled);

    let codex = snapshot.get(ProviderId::Codex).expect("Codex present");
    assert_eq!(codex.week_percent, None);
    assert_eq!(codex.five_hour_percent, None);
    assert!(!codex.is_throttled);
    assert_eq!(codex.week_reset, None);

    let claude = snapshot.get(ProviderId::Claude).expect("fourth provider present");
    assert_eq!(claude.week_percent, None);
    assert_eq!(claude.five_hour_percent, None);
    assert!(!claude.is_throttled);
    assert_eq!(claude.title, "Anthropic");
    assert_eq!(claude.author, "Anthropic");
}

#[test]
fn test_codex_live_observation_replaces_expired_cycle() {
    let mut snapshot = QuotaSnapshot::measured_baseline();
    update_snapshot_with_codex_json(
        &mut snapshot,
        r#"{"week":{"remaining_percent":98,"reset":"30.09. (19:44)"},"five_hour":{"remaining_percent":0,"reset":"23:00"}}"#,
    );
    let codex = snapshot.get(ProviderId::Codex).unwrap();
    assert_eq!(codex.week_percent, Some(98));
    assert_eq!(codex.five_hour_percent, Some(0));
    assert!(snapshot.has_throttle);

    update_snapshot_with_codex_json(&mut snapshot, "null");
    let codex = snapshot.get(ProviderId::Codex).unwrap();
    assert_eq!(codex.week_percent, None);
    assert_eq!(codex.five_hour_percent, None);
    assert_eq!(codex.week_reset, None);
    assert!(!snapshot.has_throttle);
}

#[test]
fn codex_json_out_of_range_or_missing_fields_leave_nothing() {
    let mut snapshot = QuotaSnapshot::measured_baseline();
    update_snapshot_with_codex_json(
        &mut snapshot,
        r#"{"week":{"remaining_percent":140,"reset":"27.09. (08:00)"},"five_hour":{"reset":7}}"#,
    );
    let codex = snapshot.get(ProviderId::Codex).unwrap();
    assert_eq!(codex.week_percent, None);
    assert_eq!(codex.week_reset.as_deref(), Some("27.09. (08:00)"));
    assert_eq!(codex.five_hour_percent, None);
    assert_eq!(codex.five_hour_reset, None);
    update_snapshot_with_codex_json(&mut snapshot, "not json");
    assert_eq!(snapshot.get(ProviderId::Codex).unwrap().week_reset, None);
}

#[test]
fn agy_tsv_without_limits_leaves_the_snapshot_unchanged() {
    let mut snapshot = QuotaSnapshot::measured_baseline();
    let before = snapshot.get(ProviderId::Agy).unwrap().week_percent;
    update_snapshot_with_agy_tsv(&mut snapshot, "nothing useful here", 120);
    assert_eq!(snapshot.get(ProviderId::Agy).unwrap().week_percent, before);
    assert_eq!(parse_agy_tsv("nothing useful here"), Some((None, None)));
    assert_eq!(parse_agy_tsv("Gemini\tWeekly Limit\tlots%"), None);
}

#[test]
fn reset_phrase_falls_back_to_the_raw_text() {
    let now_dt = (2026, 1, 31, 23, 59);
    assert_eq!(
        format_reset_time_phrase(Some("01.02. (00:30)"), false, Language::English, now_dt, 120),
        "in 31m (01.02. 00:30)"
    );
}

#[test]
fn glm_limits_update_the_snapshot() {
    let mut snapshot = QuotaSnapshot::measured_baseline();
    let limits = vec![
        GlmLimit { limit_type: "TIME_LIMIT".into(), used_percent: 25, next_reset_ms: Some(1790868874997) },
        GlmLimit { limit_type: "TOKENS_LIMIT".into(), used_percent: 7, next_reset_ms: Some(1789822910132) },
    ];
    update_snapshot_with_glm_limits(&mut snapshot, &limits, 120);
    let glm = snapshot.get(ProviderId::Glm).expect("GLM exists");
    assert_eq!(glm.five_hour_percent, Some(93));
    assert_eq!(glm.week_percent, Some(75));
    assert_eq!(glm.week_reset.as_deref(), Some("01.10. (17:34)"));
    assert_eq!(glm.five_hour_reset.as_deref(), Some("15:01"));
    assert_eq!(glm.cycle_label(), "Mo");
    assert!(!snapshot.has_throttle);
}

#[test]
fn codex_report_replaces_the_whole_observation() {
    let mut snapshot = QuotaSnapshot::measured_baseline();
    update_snapshot_with_codex_windows(
        &mut snapshot,
        Some(CodexWindow { remaining_percent: Some(0), reset: Some("27.09. (08:00)".into()) }),
        Some(CodexWindow { remaining_percent: Some(140), reset: None }),
    );
    let codex = snapshot.get(ProviderId::Codex).unwrap();
    assert_eq!(codex.week_percent, Some(0));
    assert_eq!(codex.five_hour_percent, None);
    assert!(codex.is_throttled);
    assert!(snapshot.has_throttle);
    update_snapshot_with_codex_windows(&mut snapshot, None, None);
    let codex = snapshot.get(ProviderId::Codex).unwrap();
    assert_eq!(codex.week_percent, None);
    assert_eq!(codex.week_reset, None);
    assert!(!snapshot.has_throttle);
}

#[test]
fn timezone_offset_follows_the_two_clocks_across_midnight_and_month_ends() {
    assert_eq!(timezone_offset_from_clocks(23, 14, 30, 23, 12, 30), 120);
    assert_eq!(timezone_offset_from_clocks(24, 0, 30, 23, 23, 30), 60);
    assert_eq!(timezone_offset_from_clocks(1, 0, 15, 31, 23, 15), 60);
    assert_eq!(timezone_offset_from_clocks(5, 10, 0, 5, 15, 30), -330);
}

#[test]
fn utc_reset_times_follow_the_offset() {
    assert_eq!(iso_utc_to_local_hm("2026-01-18T15:53:00Z", 60), Some((16, 53)));
    assert_eq!(iso_utc_to_local_hm("2026-09-18T15:53:00Z", 120), Some((17, 53)));
    assert_eq!(iso_utc_to_local_hm("23:30Z", 60), Some((0, 30)));
    assert_eq!(iso_utc_to_local_hm("00:10Z", -60), Some((23, 10)));
    assert_eq!(parse_hm(Some("15:45"), 60), Some((15, 45)));
    assert_eq!(parse_hm(Some("2026-01-18T15:53:00Z"), 60), Some((16, 53)));
    let mut snapshot = QuotaSnapshot::measured_baseline();
    update_snapshot_with_agy_tsv(
        &mut snapshot,
        "Gemini Models\tWeekly Limit Remaining\t89%\t2026-01-25T10:53:16Z",
        60,
    );
    let agy = snapshot.get(ProviderId::Agy).unwrap();
    assert_eq!(agy.week_reset, Some("25.01. (11:53)".to_string()));
}

#[test]
fn reset_dates_of_day_month_and_iso_texts() {
    let today = (2026, 9, 20);
    assert_eq!(reset_date("25.09.", today), Some((2026, 9, 25)));
    assert_eq!(reset_date(" 25.09. 12:53 ", today), Some((2026, 9, 25)));
    assert_eq!(reset_date("03.01.", today), Some((2027, 1, 3)));
    assert_eq!(reset_date("2026-09-25T10:53:00Z", today), Some((2026, 9, 25)));
    assert_eq!(reset_date("2026-10-02", today), Some((2026, 10, 2)));
    assert_eq!(reset_date("25.x.", today), None);
    assert_eq!(reset_date("2026-09", today), None);
    assert_eq!(reset_date("morgen", today), None);
    assert_eq!(reset_date("", today), None);
}

#[test]
fn whole_days_until_a_reset_never_negative() {
    let today = (2026, 9, 20);
    assert_eq!(days_until((2026, 9, 25), today), 5);
    assert_eq!(days_until((2027, 1, 3), today), 105);
    assert_eq!(days_until((2026, 9, 20), today), 0);
    assert_eq!(days_until((2026, 9, 1), today), 0);
    assert_eq!(days_until((2028, 3, 1), (2028, 2, 28)), 2);
}

#[test]
fn test_parse_glm_limits() {
    let json = r#"{
        "data": {
            "limits": [
                {"type": "TOKENS_LIMIT", "percentage": 24.0},
                {"type": "TIME_LIMIT", "percentage": 25.0}
            ]
        }
    }"#;
    let (five_h, wk) = parse_glm_limits(json).expect("valid parse");
    assert_eq!(five_h, Some(76));
    assert_eq!(wk, Some(75));
}

#[test]
fn test_parse_codex_rate_limits() {
    let json = r#"{
        "rateLimits": {
            "primary": {"usedPercent": 100.0, "windowDurationMins": 10080},
            "secondary": null
        }
    }"#;
    let (five_h, wk) = parse_codex_rate_limits(json).expect("valid parse");
    assert_eq!(five_h, None);
    assert_eq!(wk, Some(0));
}

#[test]
fn test_update_snapshot_with_glm_json() {
    let mut snapshot = QuotaSnapshot::measured_baseline();
    let json = r#"{"code":200,"msg":"Operation successful","data":{"limits":[{"type":"TIME_LIMIT","unit":5,"number":1,"usage":4000,"currentValue":1039,"remaining":2961,"percentage":25,"nextResetTime":1790868874997,"usageDetails":[]},{"type":"TOKENS_LIMIT","unit":3,"number":5,"percentage":7,"nextResetTime":1789822910132}],"level":"max"},"success":true}"#;
    update_snapshot_with_glm_json(&mut snapshot, json, 120);
    let glm = snapshot.get(ProviderId::Glm).expect("GLM exists");
    assert_eq!(glm.five_hour_percent, Some(93)); // 100 - 7 = 93
    assert_eq!(glm.week_percent, Some(75)); // 100 - 25 = 75
    assert!(glm.week_reset.as_ref().unwrap().starts_with("01.10. ("));
    assert!(glm.week_reset.as_ref().unwrap().ends_with(')'));
    assert!(glm.five_hour_reset.is_some());
    assert_eq!(glm.cycle_label(), "Mo");
}

#[test]
fn glm_and_codex_reports_that_cannot_be_read() {
    assert_eq!(parse_glm_limits("not json"), None);
    assert_eq!(parse_glm_limits(r#"{"data":{"limits":{}}}"#), None);
    assert_eq!(parse_glm_limits(r#"{"data":{"limits":[{"percentage":3}]}}"#), None);
    assert_eq!(parse_glm_limits(r#"{"data":{"limits":[]}}"#), Some((None, None)));
    assert_eq!(
        parse_glm_limits(r#"{"data":{"limits":[{"type":"TIME_LIMIT","percentage":140.7}]}}"#),
        Some((None, Some(0)))
    );
    assert_eq!(parse_codex_rate_limits(r#"{"other":1}"#), None);
    assert_eq!(parse_codex_rate_limits(r#"{"rateLimits":null}"#), Some((None, None)));
    assert_eq!(
        parse_codex_rate_limits(r#"{"rateLimits":{"secondary":{"usedPercent":12.9}}}"#),
        Some((Some(88), None))
    );
    let mut snapshot = QuotaSnapshot::measured_baseline();
    update_snapshot_with_glm_json(&mut snapshot, "[]", 120);
    let glm = snapshot.get(ProviderId::Glm).unwrap();
    assert_eq!(glm.five_hour_percent, Some(76));
    update_snapshot_with_glm_json(
        &mut snapshot,
        r#"{"data":{"limits":[{"percentage":50},{"type":"TOKENS_LIMIT"}]}}"#,
        120,
    );
    let glm = snapshot.get(ProviderId::Glm).unwrap();
    assert_eq!(glm.five_hour_percent, Some(100));
    assert_eq!(glm.week_percent, Some(75));
}
