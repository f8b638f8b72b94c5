use herdr_night_watch::backend::{command_failure_message, CompletionAction};
use herdr_night_watch::configuration::{resolve, ConfigurationSources};
use herdr_night_watch::language::Language;
use herdr_night_watch::notify::{completion_notice_text, notice_action_from_result, NoticeAction};
use herdr_night_watch::power_guard::{execution_state_flags, execution_state_result, TrayPowerGuard};
use herdr_night_watch::weather::{
    fetch_script, format_location, location_label, LocationSearch, location_search_url, percent_encode, weather_service_error, weather_symbol_for,
    WeatherSymbol,
};
use windows_sys::Win32::System::Power::{ES_CONTINUOUS, ES_DISPLAY_REQUIRED, ES_SYSTEM_REQUIRED};
use windows_sys::Win32::UI::WindowsAndMessaging::{IDCANCEL, IDOK};

#[test]
fn only_explicit_ok_confirms() {
    assert_eq!(notice_action_from_result(IDOK), NoticeAction::Confirm);
    assert_eq!(notice_action_from_result(IDCANCEL), NoticeAction::Cancel);
    assert_eq!(notice_action_from_result(0), NoticeAction::Cancel);
}

#[test]
fn running_tray_keeps_the_system_awake_without_forcing_the_display_on() {
    let flags = execution_state_flags(true);
    assert_eq!(flags, ES_CONTINUOUS | ES_SYSTEM_REQUIRED);
    assert_eq!(flags & ES_DISPLAY_REQUIRED, 0);
}

#[test]
fn stopped_tray_releases_the_continuous_system_requirement() {
    assert_eq!(execution_state_flags(false), ES_CONTINUOUS);
}

#[test]
fn power_guard_exists_only_after_an_accepted_request() {
    assert!(execution_state_result(0).is_err());
    assert!(TrayPowerGuard::acquire(0).is_err());
    let guard = TrayPowerGuard::acquire(ES_CONTINUOUS).expect("accepted");
    assert_eq!(guard.release_flags(), ES_CONTINUOUS);
}

#[test]
fn completion_notice_names_the_action_and_the_way_out() {
    let (title, text) = completion_notice_text(Language::English, false, 120, CompletionAction::Sleep, true);
    assert_eq!(title, "Herdr Night Watch");
    assert_eq!(
        text,
        "There has been no internet connection for five minutes.\n\nAll monitored Herdr agents are finished or cannot continue without internet.\n\nWindows will enter sleep in about 120 seconds.\n\nClick OK to execute the action immediately.\nClick Cancel to prevent sleep."
    );
    let (demo_title, demo_text) = completion_notice_text(Language::German, true, 60, CompletionAction::Shutdown, false);
    assert_eq!(demo_title, "Herdr-Nachtwächter - Demo");
    assert!(demo_text.contains(" 60 "));
}

#[test]
fn groups_open_meteo_weather_codes_into_the_approved_symbol_family() {
    assert_eq!(weather_symbol_for(Some(0), true, false), WeatherSymbol::ClearDay);
    assert_eq!(weather_symbol_for(Some(0), false, false), WeatherSymbol::ClearNight);
    assert_eq!(weather_symbol_for(Some(2), true, false), WeatherSymbol::PartlyCloudy);
    assert_eq!(weather_symbol_for(Some(3), true, false), WeatherSymbol::Overcast);
    assert_eq!(weather_symbol_for(Some(45), true, false), WeatherSymbol::Fog);
    assert_eq!(weather_symbol_for(Some(61), true, false), WeatherSymbol::Rain);
    assert_eq!(weather_symbol_for(Some(75), true, false), WeatherSymbol::Snow);
    assert_eq!(weather_symbol_for(Some(96), true, false), WeatherSymbol::Storm);
}

#[test]
fn shows_wind_without_hiding_rain_snow_or_storm() {
    assert_eq!(weather_symbol_for(Some(1), true, true), WeatherSymbol::Wind);
    assert_eq!(weather_symbol_for(Some(63), true, true), WeatherSymbol::Rain);
    assert_eq!(weather_symbol_for(Some(75), true, true), WeatherSymbol::Snow);
}

#[test]
fn weather_requests_are_encoded() {
    assert_eq!(percent_encode("Bad Düben"), "Bad%20D%C3%BCben");
    assert_eq!(percent_encode("a-b_c.d~e"), "a-b_c.d~e");
    assert_eq!(location_search_url(" L ", Language::German), None);
    assert_eq!(
        location_search_url("  Köln ", Language::English).unwrap(),
        "https://geocoding-api.open-meteo.com/v1/search?name=K%C3%B6ln&count=8&language=en&format=json"
    );
    assert_eq!(location_search_url("ü", Language::German).unwrap(), "https://geocoding-api.open-meteo.com/v1/search?name=%C3%BC&count=8&language=de&format=json");
    assert_eq!(
        fetch_script("https://x/?q='a'"),
        "$ProgressPreference='SilentlyContinue'; $ErrorActionPreference='Stop'; (Invoke-RestMethod -UseBasicParsing -TimeoutSec 10 -Uri 'https://x/?q=''a''') | ConvertTo-Json -Depth 5 -Compress"
    );
    assert_eq!(weather_service_error("  "), "Wetterdienst ist momentan nicht erreichbar");
    assert_eq!(weather_service_error(" down\n"), "Wetterdienst: down");
}

#[test]
fn configuration_prefers_stored_values_then_environment() {
    let c = resolve(ConfigurationSources {
        stored_distro: None,
        stored_watcher_path: None,
        env_distro: None,
        env_watcher_path: None,
        env_codex_home: Some("/home/a/.codex".into()),
    });
    assert_eq!(c.distro, "Ubuntu");
    assert_eq!(c.watcher_path, "/home/a/.codex/bin/herdr-night-watch.py");
    let d = resolve(ConfigurationSources {
        stored_distro: Some("Debian".into()),
        stored_watcher_path: None,
        env_distro: Some("Arch".into()),
        env_watcher_path: Some("/w.py".into()),
        env_codex_home: Some("/x".into()),
    });
    assert_eq!(d.distro, "Debian");
    assert_eq!(d.watcher_path, "/w.py");
}

#[test]
fn failed_commands_report_their_error_output() {
    assert_eq!(command_failure_message("Warnfrist", "  "), "Warnfrist fehlgeschlagen");
    assert_eq!(command_failure_message("Warnfrist", " boom \n"), "Warnfrist fehlgeschlagen: boom");
}

#[test]
fn language_reads_back_what_was_stored() {
    assert_eq!(Language::current(Some(Language::English.setting_value())), Language::English);
    assert_eq!(Language::current(Some("EN")), Language::English);
    assert_eq!(Language::current(Some("fr")), Language::German);
    assert_eq!(Language::current(None), Language::German);
}

#[test]
fn location_labels_name_the_country_or_region_where_known() {
    assert_eq!(location_label("Leipzig", "Deutschland"), "Leipzig, Deutschland");
    assert_eq!(location_label("Atlantis", ""), "Atlantis");
    assert_eq!(format_location("Leipzig", "Sachsen", "Deutschland"), "Leipzig · Sachsen");
    assert_eq!(format_location("Monaco", "", "Monaco"), "Monaco · Monaco");
    assert_eq!(format_location("Atlantis", "", ""), "Atlantis");
}

#[test]
fn place_search_waits_for_a_pause_and_skips_repeats() {
    let mut search = LocationSearch::new();
    assert_eq!(search.tick("Leipzig", 1_000), None);
    search.edited(1_000);
    assert_eq!(search.tick("Leipzig", 1_200), None);
    assert_eq!(search.tick(" Leipzig ", 1_250), Some("Leipzig".to_string()));
    assert!(search.searching);
    assert_eq!(search.pause_started_ms, None);
    search.edited(1_300);
    assert_eq!(search.tick("Leipzig", 1_600), None);
    search.finished("Leipzig", 1_700);
    assert!(!search.searching);
    assert_eq!(search.pause_started_ms, Some(1_700));
    assert_eq!(search.tick("Leipzig", 1_950), Some("Leipzig".to_string()));
    search.finished("Leipzig", 2_000);
    assert_eq!(search.pause_started_ms, None);
    search.edited(3_000);
    assert_eq!(search.tick("L", 3_300), None);
    assert_eq!(search.pause_started_ms, None);
    search.edited(4_000);
    assert_eq!(search.tick("Ö", 4_300), Some("Ö".to_string()));
}
