use chrono::Datelike;
use halloween_countdown::calendar::{Date, MAX_YEAR, MIN_YEAR};
use halloween_countdown::countdown::{days_until_target, next_target, TARGET_DAY, TARGET_MONTH};

fn on(year: i32, month: u32, day: u32) -> Date {
    Date::new(year, month, day).unwrap()
}

/// The count as chrono alone gives it, from chrono's own dates.
fn count_by_chrono(today: chrono::NaiveDate) -> i64 {
    let mut target = chrono::NaiveDate::from_ymd_opt(today.year(), 10, 31).unwrap();
    if today > target {
        target = chrono::NaiveDate::from_ymd_opt(today.year() + 1, 10, 31).unwrap();
    }
    (target - today).num_days()
}

/// The count by walking the calendar a day at a time until the target day.
fn count_by_walking(year: i32, month: u32, day: u32) -> i64 {
    let (mut y, mut m, mut d) = (year, month, day);
    let mut steps = 0;
    while !(m == 10 && d == 31) {
        let leap = y % 4 == 0 && (y % 100 != 0 || y % 400 == 0);
        let length = match m {
            2 => {
                if leap {
                    29
                } else {
                    28
                }
            }
            4 | 6 | 9 | 11 => 30,
            _ => 31,
        };
        if d < length {
            d += 1;
        } else if m < 12 {
            m += 1;
            d = 1;
        } else {
            y += 1;
            m = 1;
            d = 1;
        }
        steps += 1;
    }
    steps
}

#[test]
fn the_target_day_is_the_last_of_october() {
    assert_eq!(TARGET_MONTH, 10);
    assert_eq!(TARGET_DAY, 31);
}

#[test]
fn no_days_are_left_on_the_target_day() {
    for year in [-1, 0, 1, 1900, 2000, 2023, 2024, 2025, 2100, MIN_YEAR, MAX_YEAR] {
        assert_eq!(days_until_target(on(year, 10, 31)), 0, "{year}");
    }
}

#[test]
fn one_day_is_left_on_the_day_before() {
    for year in [-1, 0, 1, 1900, 2000, 2023, 2024, 2025, 2100, MIN_YEAR, MAX_YEAR] {
        assert_eq!(days_until_target(on(year, 10, 30)), 1, "{year}");
    }
}

#[test]
fn from_the_first_of_november_a_year_less_a_day_is_left() {
    assert_eq!(days_until_target(on(2024, 11, 1)), 364);
    assert_eq!(days_until_target(on(2025, 11, 1)), 364);
    assert_eq!(days_until_target(on(2023, 11, 1)), 365);
    assert_eq!(days_until_target(on(2027, 11, 1)), 365);
    assert_eq!(days_until_target(on(1999, 11, 1)), 365);
    assert_eq!(days_until_target(on(2099, 11, 1)), 364);
    assert_eq!(days_until_target(on(-1, 11, 1)), 365);
}

#[test]
fn some_days_of_the_year() {
    assert_eq!(days_until_target(on(2025, 1, 1)), 303);
    assert_eq!(days_until_target(on(2024, 1, 1)), 304);
    assert_eq!(days_until_target(on(2024, 2, 29)), 245);
    assert_eq!(days_until_target(on(2024, 12, 31)), 304);
    assert_eq!(days_until_target(on(2023, 12, 31)), 305);
    assert_eq!(days_until_target(on(2025, 10, 1)), 30);
    assert_eq!(days_until_target(on(2025, 10, 29)), 2);
}

#[test]
fn the_count_is_never_negative_and_never_above_a_year() {
    for year in 2019..=2030 {
        for month in 1..=12u32 {
            for day in 1..=31u32 {
                if let Some(today) = Date::new(year, month, day) {
                    let days = days_until_target(today);
                    assert!((0..=365).contains(&days), "{year}-{month}-{day}: {days}");
                    assert_eq!(days == 0, month == 10 && day == 31);
                }
            }
        }
    }
}

#[test]
fn the_count_agrees_with_chrono_and_with_a_walk_through_the_calendar() {
    for year in [-401, -400, -1, 0, 1899, 1900, 1999, 2000, 2023, 2024, 2025, 2099, 2100] {
        for month in 1..=12u32 {
            for day in 1..=31u32 {
                if let Some(today) = Date::new(year, month, day) {
                    let days = days_until_target(today);
                    let theirs = chrono::NaiveDate::from_ymd_opt(year, month, day).unwrap();
                    assert_eq!(days, count_by_chrono(theirs), "{year}-{month}-{day}");
                    assert_eq!(days, count_by_walking(year, month, day), "{year}-{month}-{day}");
                }
            }
        }
    }
}

#[test]
fn the_count_falls_by_one_each_day_up_to_the_target_day() {
    let mut expected = 303;
    for month in 1..=10u32 {
        for day in 1..=31u32 {
            if let Some(today) = Date::new(2025, month, day) {
                assert_eq!(days_until_target(today), expected);
                expected -= 1;
            }
        }
    }
    assert_eq!(expected, -1);
}

#[test]
fn the_target_stays_in_the_year_until_it_has_passed() {
    for (month, day) in [(1, 1), (2, 28), (9, 30), (10, 1), (10, 30), (10, 31)] {
        let target = next_target(on(2025, month, day)).unwrap();
        assert_eq!(target, on(2025, 10, 31));
    }
}

#[test]
fn the_target_moves_to_the_next_year_from_the_first_of_november() {
    for (month, day) in [(11, 1), (11, 30), (12, 1), (12, 31)] {
        let target = next_target(on(2025, month, day)).unwrap();
        assert_eq!(target, on(2026, 10, 31));
    }
}

#[test]
fn the_last_year_has_a_target_only_until_the_target_day() {
    assert_eq!(next_target(on(MAX_YEAR, 1, 1)), Some(on(MAX_YEAR, 10, 31)));
    assert_eq!(next_target(on(MAX_YEAR, 10, 31)), Some(on(MAX_YEAR, 10, 31)));
    assert_eq!(days_until_target(on(MAX_YEAR, 1, 1)), 303);
    assert_eq!(next_target(on(MAX_YEAR, 11, 1)), None);
    assert_eq!(next_target(on(MAX_YEAR, 12, 31)), None);
    assert_eq!(next_target(on(MAX_YEAR - 1, 12, 31)), Some(on(MAX_YEAR, 10, 31)));
}

#[test]
fn the_first_year_counts_like_any_other() {
    assert_eq!(next_target(on(MIN_YEAR, 1, 1)), Some(on(MIN_YEAR, 10, 31)));
    assert_eq!(days_until_target(on(MIN_YEAR, 1, 1)), 303);
    assert_eq!(days_until_target(on(MIN_YEAR, 11, 1)), 364);
}
