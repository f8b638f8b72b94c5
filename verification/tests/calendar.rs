use herdr_night_watch::calendar::{days_to_ymd, ymd_to_days};
use herdr_night_watch::quota::{current_ymd, ymd_of_unix_seconds};

#[test]
fn day_numbers_and_dates_convert_both_ways() {
    assert_eq!(days_to_ymd(0), (1970, 1, 1));
    assert_eq!(ymd_to_days(2026, 9, 23), 20719);
    assert_eq!(days_to_ymd(20719), (2026, 9, 23));
    assert_eq!(days_to_ymd(-1), (1969, 12, 31));
    assert_eq!(ymd_to_days(2024, 2, 29) + 1, ymd_to_days(2024, 3, 1));
    for d in [-800_000i64, -1, 0, 59, 60, 365, 10_000, 2_932_896] {
        let (y, m, day) = days_to_ymd(d);
        assert_eq!(ymd_to_days(y, m, day), d);
    }
}

#[test]
fn unix_seconds_give_the_utc_date() {
    assert_eq!(ymd_of_unix_seconds(0), (1970, 1, 1));
    assert_eq!(ymd_of_unix_seconds(1_790_000_000), (2026, 9, 21));
    let (y, m, d) = current_ymd();
    assert!(y >= 2024 && (1..=12).contains(&m) && (1..=31).contains(&d));
}
