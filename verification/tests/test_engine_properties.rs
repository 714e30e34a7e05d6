use jpholiday::date::Date;
use jpholiday::jpholiday::JPHoliday;
use std::borrow::Borrow;

// The two point queries agree: a date is a holiday exactly when a name
// resolves for it.
#[test]
fn test_is_holiday_matches_name_presence() {
    let jpholiday = JPHoliday::new();
    for year in [1950, 1971, 1985, 2000, 2019, 2020, 2021] {
        for month in 1..=12u32 {
            for day in [1, 2, 3, 9, 10, 15, 23, 28] {
                let d = Date::from_ymd(year, month, day);
                assert_eq!(jpholiday.is_holiday(&d), jpholiday.is_holiday_name(&d).is_some());
            }
        }
    }
}

// The month enumeration equals the range enumeration of the month's first
// through last day, and its length is the number of days the point query
// affirms.
#[test]
fn test_month_holidays_equals_between() {
    let jpholiday = JPHoliday::new();
    for (year, dim) in [(2000, 31), (2019, 31), (2020, 31)] {
        let by_month = jpholiday.month_holidays(year, 5);
        let by_range = jpholiday.between(
            Date::from_ymd(year, 5, 1).borrow(),
            Date::from_ymd(year, 5, dim).borrow(),
        );
        assert_eq!(by_month, by_range);
        let mut count = 0;
        for day in 1..=dim {
            if jpholiday.is_holiday(Date::from_ymd(year, 5, day).borrow()) {
                count += 1;
            }
        }
        assert_eq!(by_month.len(), count);
        for (date, _) in &by_month {
            assert_eq!(date.year, year);
            assert_eq!(date.month, 5);
        }
    }
}

// The year enumeration is strictly ascending and stays within its year.
#[test]
fn test_year_holidays_ascending_and_in_year() {
    let jpholiday = JPHoliday::new();
    for year in [1971, 2000, 2019, 2020] {
        let entries = jpholiday.year_holidays(year);
        for window in entries.windows(2) {
            let a = window[0].0;
            let b = window[1].0;
            assert!((a.year, a.month, a.day) < (b.year, b.month, b.day));
        }
        for (date, _) in &entries {
            assert_eq!(date.year, year);
        }
    }
}

// Repeating a query with identical inputs yields identical output.
#[test]
fn test_queries_idempotent() {
    let jpholiday = JPHoliday::new();
    let d = Date::from_ymd(2020, 2, 24);
    assert_eq!(jpholiday.is_holiday(&d), jpholiday.is_holiday(&d));
    assert_eq!(jpholiday.is_holiday_name(&d), jpholiday.is_holiday_name(&d));
    assert_eq!(jpholiday.year_holidays(2020), jpholiday.year_holidays(2020));
    assert_eq!(jpholiday.month_holidays(2020, 5), jpholiday.month_holidays(2020, 5));
    assert_eq!(
        jpholiday.between(Date::from_ymd(2020, 1, 1).borrow(), Date::from_ymd(2020, 5, 3).borrow()),
        jpholiday.between(Date::from_ymd(2020, 1, 1).borrow(), Date::from_ymd(2020, 5, 3).borrow())
    );
}

// Known concrete holiday resolutions.
#[test]
fn test_known_scenarios() {
    let jpholiday = JPHoliday::new();
    assert_eq!(jpholiday.is_holiday(Date::from_ymd(1971, 1, 1).borrow()), true);
    assert_eq!(jpholiday.is_holiday_name(Date::from_ymd(1971, 1, 1).borrow()).unwrap(), "元日".to_string());
    // sandwiched between Constitution Day and Children's Day
    assert_eq!(jpholiday.is_holiday_name(Date::from_ymd(1971, 5, 4).borrow()).unwrap(), "国民の休日".to_string());
    // second Monday of January under the happy-Monday rule
    assert_eq!(jpholiday.is_holiday_name(Date::from_ymd(2000, 1, 10).borrow()).unwrap(), "成人の日".to_string());
    // February 23, 2020 is a Sunday; the following Monday substitutes
    assert_eq!(jpholiday.is_holiday_name(Date::from_ymd(2020, 2, 23).borrow()).unwrap(), "天皇誕生日".to_string());
    assert_eq!(jpholiday.is_holiday_name(Date::from_ymd(2020, 2, 24).borrow()).unwrap(), "天皇誕生日 振替休日".to_string());
    // Golden-Week rollover: May 6, 2020 is a Wednesday, walking back to May 3
    assert_eq!(jpholiday.is_holiday_name(Date::from_ymd(2020, 5, 6).borrow()).unwrap(), "憲法記念日 振替休日".to_string());
    assert_eq!(jpholiday.year_holidays(1971).len(), 13);
    assert_eq!(jpholiday.year_holidays(2000).len(), 15);
    assert_eq!(jpholiday.year_holidays(2020).len(), 18);
}

// An early-2017 range ends on Constitution Day and holds no earlier entry
// of that name.
#[test]
fn test_between_2017_ends_constitution_day() {
    let jpholiday = JPHoliday::new();
    let entries = jpholiday.between(
        Date::from_ymd(2017, 1, 1).borrow(),
        Date::from_ymd(2017, 5, 3).borrow(),
    );
    assert_eq!(entries.len(), 7);
    let (last_date, last_name) = entries.last().unwrap();
    assert_eq!(*last_date, Date::from_ymd(2017, 5, 3));
    assert_eq!(last_name, "憲法記念日");
    for (_, name) in &entries[..6] {
        assert_ne!(name, "憲法記念日");
    }
}

// A single-day range checks exactly its one day.
#[test]
fn test_between_single_day() {
    let jpholiday = JPHoliday::new();
    let entries = jpholiday.between(
        Date::from_ymd(2020, 1, 1).borrow(),
        Date::from_ymd(2020, 1, 1).borrow(),
    );
    assert_eq!(entries, vec![(Date::from_ymd(2020, 1, 1), "元日".to_string())]);
    let empty = jpholiday.between(
        Date::from_ymd(2020, 1, 2).borrow(),
        Date::from_ymd(2020, 1, 2).borrow(),
    );
    assert_eq!(empty, vec![]);
}

// A plain weekday resolves no holiday.
#[test]
fn test_not_a_holiday() {
    let jpholiday = JPHoliday::new();
    assert_eq!(jpholiday.is_holiday(Date::from_ymd(2017, 1, 3).borrow()), false);
    assert_eq!(jpholiday.is_holiday_name(Date::from_ymd(2017, 1, 3).borrow()), None);
}

// Before 1973 no Monday substitutes for a Sunday holiday.
#[test]
fn test_no_substitute_before_1973() {
    let jpholiday = JPHoliday::new();
    // May 3, 1970 was a Sunday; the law did not yet move it to Monday
    assert_eq!(jpholiday.is_holiday_name(Date::from_ymd(1970, 5, 4).borrow()).unwrap(), "国民の休日".to_string());
    // November 23, 1969 was a Sunday; November 24 stays an ordinary Monday
    assert_eq!(jpholiday.is_holiday(Date::from_ymd(1969, 11, 24).borrow()), false);
    // November 23, 1975 was a Sunday; from 1973 on the Monday substitutes
    assert_eq!(jpholiday.is_holiday_name(Date::from_ymd(1975, 11, 24).borrow()).unwrap(), "勤労感謝の日 振替休日".to_string());
}

// One-off ceremonial holidays match their exact dates only.
#[test]
fn test_ceremonial_one_off_dates() {
    let jpholiday = JPHoliday::new();
    assert_eq!(jpholiday.is_holiday_name(Date::from_ymd(2019, 5, 1).borrow()).unwrap(), "天皇の即位の日".to_string());
    assert_eq!(jpholiday.is_holiday_name(Date::from_ymd(1989, 2, 24).borrow()).unwrap(), "昭和天皇の大喪の礼".to_string());
    assert_eq!(jpholiday.is_holiday(Date::from_ymd(2018, 5, 1).borrow()), false);
}
