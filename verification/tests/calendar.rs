use chrono::{Datelike, NaiveDate};
use server::calendar::{reserved_days, ReservedPeriod};
use server::clock::DateTimeValue;

fn moment(y: i32, m: u32, d: u32, hour: u32) -> DateTimeValue {
    let day = NaiveDate::from_ymd_opt(y, m, d).unwrap().num_days_from_ce();
    DateTimeValue { day, seconds: hour * 3600, nanos: 0 }
}

fn period(from: DateTimeValue, to: DateTimeValue) -> ReservedPeriod {
    ReservedPeriod { rental: from, return_at: to }
}

#[test]
fn lists_taken_days_of_the_month() {
    let periods = vec![
        period(moment(2025, 6, 3, 10), moment(2025, 6, 5, 10)),
        period(moment(2025, 6, 4, 9), moment(2025, 6, 4, 18)),
        period(moment(2025, 5, 30, 12), moment(2025, 6, 2, 8)),
        period(moment(2025, 6, 28, 0), moment(2025, 7, 2, 0)),
    ];
    let shown = moment(2025, 6, 1, 0).day;
    let cal = reserved_days(&periods, shown).unwrap();
    assert_eq!(cal.reserved_days, vec![1, 3, 4, 28, 29, 30]);
}

#[test]
fn the_return_day_counts_only_before_the_return_time() {
    let later = vec![period(moment(2025, 6, 10, 9), moment(2025, 6, 12, 10))];
    let shown = moment(2025, 6, 15, 0).day;
    assert_eq!(reserved_days(&later, shown).unwrap().reserved_days, vec![10, 11, 12]);
    let earlier = vec![period(moment(2025, 6, 10, 11), moment(2025, 6, 12, 10))];
    assert_eq!(reserved_days(&earlier, shown).unwrap().reserved_days, vec![10, 11]);
}

#[test]
fn empty_and_inverted_periods_take_nothing() {
    let shown = moment(2025, 6, 1, 0).day;
    assert!(reserved_days(&Vec::new(), shown).unwrap().reserved_days.is_empty());
    let inverted = vec![period(moment(2025, 6, 9, 0), moment(2025, 6, 3, 0))];
    assert!(reserved_days(&inverted, shown).unwrap().reserved_days.is_empty());
}

#[test]
fn matches_the_day_by_day_walk() {
    let periods = vec![
        period(moment(2024, 2, 27, 15), moment(2024, 3, 2, 9)),
        period(moment(2024, 2, 1, 0), moment(2024, 2, 1, 0)),
    ];
    let shown = moment(2024, 2, 10, 0).day;
    let mut expected: Vec<u8> = Vec::new();
    for p in &periods {
        let mut day = NaiveDate::from_num_days_from_ce_opt(p.rental.day).unwrap().and_hms_opt(15, 0, 0).unwrap();
        let end = NaiveDate::from_num_days_from_ce_opt(p.return_at.day).unwrap().and_hms_opt(p.return_at.seconds / 3600, 0, 0).unwrap();
        if p.rental.seconds == 0 {
            day = NaiveDate::from_num_days_from_ce_opt(p.rental.day).unwrap().and_hms_opt(0, 0, 0).unwrap();
        }
        while day < end {
            if day.month() == 2 {
                expected.push(day.day() as u8);
            }
            day += chrono::Duration::days(1);
        }
    }
    expected.sort_unstable();
    expected.dedup();
    assert_eq!(reserved_days(&periods, shown).unwrap().reserved_days, expected);
    assert_eq!(expected, vec![27, 28, 29]);
}

#[test]
fn listed_days_are_days_of_a_month() {
    let periods = vec![period(moment(2025, 1, 1, 0), moment(2025, 3, 1, 0))];
    let shown = moment(2025, 1, 15, 0).day;
    let days = reserved_days(&periods, shown).unwrap().reserved_days;
    assert_eq!(days, (1..=31).collect::<Vec<u8>>());
    assert!(days.iter().all(|d| (1..=31).contains(d)));
}

#[test]
fn a_period_ending_on_the_last_date_before_its_hour_is_walked() {
    let last = NaiveDate::MAX.num_days_from_ce();
    let p = period(
        DateTimeValue { day: last - 2, seconds: 12 * 3600, nanos: 0 },
        DateTimeValue { day: last, seconds: 6 * 3600, nanos: 0 },
    );
    let max = NaiveDate::MAX;
    let cal = reserved_days(&vec![p], last).unwrap();
    let before = max.pred_opt().unwrap();
    let expected: Vec<u8> = [max.pred_opt().unwrap().pred_opt().unwrap(), before]
        .iter()
        .filter(|d| d.month() == max.month())
        .map(|d| d.day() as u8)
        .collect();
    assert_eq!(cal.reserved_days, expected);
}
