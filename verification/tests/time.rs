use chrono::Datelike;
use chrono::NaiveDate;
use tardis::epoch::Timestamp;
use tardis::time::get_leap_seconds;
use tardis::time::jd_utc_to_tt;
use tardis::time::JD_J2000;
use tardis::time::MILLIS_PER_DAY;
use tardis::time::TT_LEAP_SECONDS;

fn julian(year: i32, month: u32, day: u32) -> i64 {
    Timestamp::new(NaiveDate::from_ymd_opt(year, month, day).unwrap().num_days_from_ce(), 0)
        .julian_millis()
}

#[test]
fn leap_second_table() {
    assert_eq!(TT_LEAP_SECONDS.len(), 27);
    assert_eq!(TT_LEAP_SECONDS[0], julian(1972, 7, 1));
    assert_eq!(TT_LEAP_SECONDS[1], julian(1973, 1, 1));
    assert_eq!(TT_LEAP_SECONDS[21], julian(1999, 1, 1));
    assert_eq!(TT_LEAP_SECONDS[26], julian(2017, 1, 1));
    assert_eq!(TT_LEAP_SECONDS[0] as f64 / MILLIS_PER_DAY as f64, 2_441_499.5);
    assert_eq!(TT_LEAP_SECONDS[26] as f64 / MILLIS_PER_DAY as f64, 2_457_754.5);
    for pair in TT_LEAP_SECONDS.windows(2) {
        assert!(pair[0] < pair[1]);
    }
}

#[test]
fn leap_seconds_count_the_entries_reached() {
    assert_eq!(get_leap_seconds(julian(1970, 1, 1)), 10);
    assert_eq!(get_leap_seconds(0), 10);
    assert_eq!(get_leap_seconds(TT_LEAP_SECONDS[0] - 1), 10);
    assert_eq!(get_leap_seconds(TT_LEAP_SECONDS[0]), 11);
    assert_eq!(get_leap_seconds(TT_LEAP_SECONDS[1] - 1), 11);
    assert_eq!(get_leap_seconds(TT_LEAP_SECONDS[1]), 12);
    assert_eq!(get_leap_seconds(julian(2000, 1, 1)), 32);
    assert_eq!(get_leap_seconds(TT_LEAP_SECONDS[26] - 1), 36);
    assert_eq!(get_leap_seconds(TT_LEAP_SECONDS[26]), 37);
    assert_eq!(get_leap_seconds(julian(2021, 11, 12)), 37);
    assert_eq!(get_leap_seconds(2_459_000 * MILLIS_PER_DAY), 37);
    assert_eq!(get_leap_seconds(212_457_600_000_000), 37);
    assert_eq!(get_leap_seconds(i64::MIN), 10);
    assert_eq!(get_leap_seconds(i64::MAX), 37);
    for (i, entry) in TT_LEAP_SECONDS.iter().enumerate() {
        assert_eq!(get_leap_seconds(*entry) as usize, 11 + i);
    }
}

#[test]
fn leap_seconds_never_fall() {
    let mut dates = vec![i64::MIN, 0, julian(1970, 1, 1), julian(2030, 1, 1), i64::MAX];
    for entry in TT_LEAP_SECONDS {
        dates.extend_from_slice(&[entry - 1, entry, entry + 1]);
    }
    dates.sort();
    for pair in dates.windows(2) {
        let earlier = get_leap_seconds(pair[0]);
        let later = get_leap_seconds(pair[1]);
        assert!(10 <= earlier && earlier <= later && later <= 37);
    }
}

#[test]
fn terrestrial_time_is_ahead_by_leap_seconds_and_32_184() {
    let jd = julian(2021, 11, 12);
    assert_eq!(jd_utc_to_tt(jd), jd + 37_000 + 32_184);
    let jd = julian(1970, 1, 1);
    assert_eq!(jd_utc_to_tt(jd), jd + 10_000 + 32_184);
    assert_eq!(jd_utc_to_tt(JD_J2000), JD_J2000 + 32_000 + 32_184);
    assert_eq!(jd_utc_to_tt(i64::MAX - 69_184), i64::MAX);
}

#[test]
fn julian_date_of_a_timestamp() {
    assert_eq!(Timestamp::new(730_120, 43_200).julian_millis(), JD_J2000);
    assert_eq!(JD_J2000 as f64 / MILLIS_PER_DAY as f64, 2_451_545.0);
    assert_eq!(Timestamp::new(738_106, 50_383).julian_millis(), 212_503_485_583_000);
    assert_eq!(Timestamp::new(0, 0).julian_millis() as f64 / MILLIS_PER_DAY as f64, 1_721_424.5);
    assert_eq!(Timestamp::new(1, 0).julian_millis() as f64 / MILLIS_PER_DAY as f64, 1_721_425.5);
    let _ = Timestamp::new(i32::MAX, u32::MAX).julian_millis();
    let _ = Timestamp::new(i32::MIN, 0).julian_millis();
}

#[test]
fn seconds_between_timestamps() {
    let epoch = Timestamp::new(738_106, 50_383);
    assert_eq!(epoch.seconds_since(&epoch), 0);
    assert_eq!(Timestamp::new(738_106, 50_443).seconds_since(&epoch), 60);
    assert_eq!(Timestamp::new(738_107, 0).seconds_since(&epoch), 86_400 - 50_383);
    assert_eq!(Timestamp::new(738_105, 50_383).seconds_since(&epoch), -86_400);
    assert_eq!(
        Timestamp::new(i32::MAX, u32::MAX).seconds_since(&Timestamp::new(i32::MIN, 0)),
        (i32::MAX as i64 - i32::MIN as i64) * 86_400 + u32::MAX as i64
    );
    assert_eq!(
        Timestamp::new(i32::MIN, 0).seconds_since(&Timestamp::new(i32::MAX, u32::MAX)),
        (i32::MIN as i64 - i32::MAX as i64) * 86_400 - u32::MAX as i64
    );
}

#[test]
fn whole_seconds_are_cut_toward_zero() {
    let epoch = Timestamp::new(738_106, 50_383);
    assert_eq!(Timestamp::new(738_106, 50_383).elapsed_since(0, &epoch), 0);
    assert_eq!(Timestamp::new(738_106, 50_383).elapsed_since(999_999_999, &epoch), 0);
    assert_eq!(Timestamp::new(738_106, 50_384).elapsed_since(500_000_000, &epoch), 1);
    assert_eq!(Timestamp::new(738_106, 50_382).elapsed_since(0, &epoch), -1);
    assert_eq!(Timestamp::new(738_106, 50_382).elapsed_since(500_000_000, &epoch), 0);
    assert_eq!(Timestamp::new(738_106, 50_381).elapsed_since(1, &epoch), -1);
    assert_eq!(Timestamp::new(738_105, 50_383).elapsed_since(250_000_000, &epoch), -86_399);
    assert_eq!(
        Timestamp::new(i32::MIN, 0).elapsed_since(u32::MAX, &Timestamp::new(i32::MAX, u32::MAX)),
        (i32::MIN as i64 - i32::MAX as i64) * 86_400 - u32::MAX as i64 + 1
    );
}

#[test]
fn second_of_the_minute() {
    assert_eq!(Timestamp::new(738_106, 50_383).second_of_minute(), 43);
    assert_eq!(Timestamp::new(1, 0).second_of_minute(), 0);
    assert_eq!(Timestamp::new(1, 86_399).second_of_minute(), 59);
}
