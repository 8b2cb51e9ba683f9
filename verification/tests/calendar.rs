use zuvi::calendar::TimeUtils;

#[test]
fn leap_year_rule() {
    assert!(TimeUtils::is_leap_year(2024));
    assert!(TimeUtils::is_leap_year(2000));
    assert!(!TimeUtils::is_leap_year(1900));
    assert!(!TimeUtils::is_leap_year(2023));
    assert!(!TimeUtils::is_leap_year(2100));
    assert!(TimeUtils::is_leap_year(2400));
}

#[test]
fn month_lengths() {
    assert_eq!(TimeUtils::days_in_month(2024, 2), 29);
    assert_eq!(TimeUtils::days_in_month(2023, 2), 28);
    assert_eq!(TimeUtils::days_in_month(1900, 2), 28);
    assert_eq!(TimeUtils::days_in_month(2000, 2), 29);
    assert_eq!(TimeUtils::days_in_month(2024, 1), 31);
    assert_eq!(TimeUtils::days_in_month(2024, 4), 30);
    assert_eq!(TimeUtils::days_in_month(2024, 12), 31);
    assert_eq!(TimeUtils::days_in_month(2024, 0), 0);
    assert_eq!(TimeUtils::days_in_month(2024, 13), 0);
}

#[test]
fn epoch_and_known_timestamps() {
    assert_eq!(TimeUtils::date_to_timestamp(1970, 1, 1), 0);
    assert_eq!(TimeUtils::date_to_timestamp(1970, 1, 2), 86400);
    assert_eq!(TimeUtils::date_to_timestamp(2024, 1, 15), 1705276800);
    assert_eq!(TimeUtils::date_to_timestamp(2024, 2, 29), 1709164800);
    assert_eq!(TimeUtils::timestamp_to_date(0), (1970, 1, 1));
    assert_eq!(TimeUtils::timestamp_to_date(1705276800), (2024, 1, 15));
}

#[test]
fn time_of_day_is_discarded() {
    let midnight = TimeUtils::date_to_timestamp(2024, 6, 30);
    assert_eq!(TimeUtils::timestamp_to_date(midnight + 1), (2024, 6, 30));
    assert_eq!(TimeUtils::timestamp_to_date(midnight + 86399), (2024, 6, 30));
    assert_eq!(TimeUtils::timestamp_to_date(midnight + 86400), (2024, 7, 1));
}

#[test]
fn round_trip_across_leap_boundaries() {
    for &year in &[1970, 1999, 2000, 2023, 2024, 2100, 9999] {
        for month in 1..=12u32 {
            let len = TimeUtils::days_in_month(year, month);
            for day in 1..=len {
                let ts = TimeUtils::date_to_timestamp(year, month, day);
                assert_eq!(TimeUtils::timestamp_to_date(ts), (year, month, day));
            }
        }
    }
}

#[test]
fn supported_range_bounds() {
    assert!(TimeUtils::timestamp_in_range(0));
    assert!(TimeUtils::timestamp_in_range(253402300799));
    assert!(!TimeUtils::timestamp_in_range(253402300800));
    assert!(!TimeUtils::timestamp_in_range(-1));
}

#[test]
fn next_due_clamps_to_leap_february() {
    // Lease starts 2024-01-15 with payment day 31: the next instalment is
    // due on 2024-02-29 (leap-year clamp), the one after on 2024-03-31.
    let start = TimeUtils::date_to_timestamp(2024, 1, 15);
    assert_eq!(
        TimeUtils::calculate_next_payment_due(start, 31, 0),
        TimeUtils::date_to_timestamp(2024, 2, 29)
    );
    assert_eq!(
        TimeUtils::calculate_next_payment_due(start, 31, 1),
        TimeUtils::date_to_timestamp(2024, 3, 31)
    );
}

#[test]
fn next_due_clamps_in_short_months() {
    let start = TimeUtils::date_to_timestamp(2024, 3, 15);
    assert_eq!(
        TimeUtils::calculate_next_payment_due(start, 31, 0),
        TimeUtils::date_to_timestamp(2024, 4, 30)
    );
    let start_2023 = TimeUtils::date_to_timestamp(2023, 1, 10);
    assert_eq!(
        TimeUtils::calculate_next_payment_due(start_2023, 31, 0),
        TimeUtils::date_to_timestamp(2023, 2, 28)
    );
}

#[test]
fn next_due_crosses_year_end() {
    let start = TimeUtils::date_to_timestamp(2023, 11, 20);
    assert_eq!(
        TimeUtils::calculate_next_payment_due(start, 15, 1),
        TimeUtils::date_to_timestamp(2024, 1, 15)
    );
}

#[test]
fn rent_due_comparison() {
    let start = TimeUtils::date_to_timestamp(2024, 1, 15);
    let due = TimeUtils::date_to_timestamp(2024, 2, 29);
    assert!(!TimeUtils::is_rent_due(due - 1, start, 31, 0));
    assert!(TimeUtils::is_rent_due(due, start, 31, 0));
    assert!(TimeUtils::is_rent_due(due + 86400, start, 31, 0));
}

#[test]
fn months_due_counts_elapsed_instalments() {
    let start = TimeUtils::date_to_timestamp(2024, 1, 15);
    let before_first = TimeUtils::date_to_timestamp(2024, 2, 28);
    assert_eq!(TimeUtils::calculate_months_due(before_first, start, 31), 0);
    let on_first = TimeUtils::date_to_timestamp(2024, 2, 29);
    assert_eq!(TimeUtils::calculate_months_due(on_first, start, 31), 1);
    let on_second = TimeUtils::date_to_timestamp(2024, 3, 31);
    assert_eq!(TimeUtils::calculate_months_due(on_second, start, 31), 2);
    let much_later = TimeUtils::date_to_timestamp(2025, 1, 31);
    assert_eq!(TimeUtils::calculate_months_due(much_later, start, 31), 12);
}
