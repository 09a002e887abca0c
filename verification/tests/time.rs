use noted::types::datetime::DateTime;
use noted::types::id::Id;
use noted::types::time::{
    Date, Hour, Hour12, Minute, Month, ReminderTime, SimpleTime, TimePeriod, Weekday,
};

#[test]
fn hours_wrap_around_the_day() {
    assert_eq!(Hour::from_u8(25).value(), 1);
    assert_eq!(Hour::from_u8(23).add_hours(3).value(), 2);
    assert_eq!(Hour::from_u8(2).sub_hours(5).value(), 21);
    assert_eq!(Hour::from_u8(7).sub_hours(50).value(), 5);
    assert_eq!(Hour12::from_u8(13).value(), 1);
    assert_eq!(Minute::from_u8(61).value(), 1);
    assert_eq!(Minute::from_u8(50).add_minutes(15).value(), 5);
}

#[test]
fn sub_hours_undoes_add_hours() {
    for start in 0u8..24 {
        for step in 0u8..30 {
            let h = Hour::from_u8(start);
            assert_eq!(h.add_hours(step).sub_hours(step), h);
        }
    }
}

#[test]
fn minutes_from_one_to_sixty() {
    assert_eq!(Minute::from_1_to_60(1).value(), 0);
    assert_eq!(Minute::from_1_to_60(60).value(), 59);
    assert_eq!(Minute::from_1_to_60(0).value(), 0);
}

#[test]
fn twelve_hour_clock() {
    assert_eq!(Hour::from_u8(0).standard(), (Hour12::from_u8(0), TimePeriod::Am));
    assert_eq!(Hour::from_u8(13).standard(), (Hour12::from_u8(1), TimePeriod::Pm));
    assert_eq!(Hour::from_u8(12).military(), (12, TimePeriod::Pm));
    let t = SimpleTime::from_military(Hour::from_u8(18), Minute::from_u8(45));
    assert_eq!(t.to_hmp(), (Hour12::from_u8(6), Minute::from_u8(45), TimePeriod::Pm));
    assert_eq!(t.to_military(), (Hour::from_u8(18), Minute::from_u8(45)));
    let mut p = TimePeriod::Am;
    p.toggle();
    assert!(p.is_pm());
    p.toggle();
    assert!(p.is_am());
    assert_eq!(TimePeriod::Pm.to_display_string(), "PM");
}

#[test]
fn dates_are_checked() {
    assert!(Date::try_new(2023, 2, 29).is_none());
    assert!(Date::try_new(2023, 4, 31).is_none());
    assert!(Date::try_new(2023, 13, 1).is_none());
    assert!(Date::try_new(2024, 2, 29).is_some());
    let d = Date::new(2024, 3, 1);
    assert_eq!(d.to_calendar_date(), (2024, Month::March, 1));
    assert_eq!(d.to_ordinal_date(), 61);
    assert_eq!(Date::new(2024, 1, 1).weekday(), Weekday::Monday);
    assert_eq!(Date::new(2024, 12, 30).to_iso_week_date(), (2025, 1, Weekday::Monday));
    assert_eq!(
        Date::from_iso_week_date(2025, 1, Weekday::Monday),
        Date::new(2024, 12, 30)
    );
    assert!(Date::try_from_iso_week_date(2023, 53, Weekday::Monday).is_none());
    assert_eq!(Month::try_from_u8(0), None);
    assert_eq!(Month::try_from_u8(12), Some(Month::December));
    assert_eq!(Weekday::try_from_u8(7), None);
}

#[test]
fn instants_and_reminder_times() {
    let epoch = DateTime::unix_epoch();
    assert_eq!(epoch.unix_nanos(), 0);
    assert!(epoch.to_text().starts_with("1970-01-01"));
    let later = DateTime::from_unix_nanos(90_061_000_000_000);
    assert!(epoch.is_before(&later));
    assert!(later.is_after(&epoch));

    let rt = ReminderTime::from_time_dt(later);
    assert_eq!(rt.to_time_dt().unix_nanos(), 90_060_000_000_000);
    let start = ReminderTime::epoch();
    assert_eq!(start.to_time_dt().unix_nanos(), 0);
}

#[test]
fn identifiers() {
    let null = Id::null();
    assert!(null.is_null());
    assert!(!null.is_valid());
    assert!(Id::from_u64(0).is_none());
    let id = Id::random();
    assert!(id.is_valid());
    assert!(!id.is_null());
    assert_eq!(Id::from_u64(id.to_u64()).map(|i| i.to_u64()), Some(id.to_u64()));
    assert_eq!(id.to_text().len(), 8);
    let mut other = Id::from_u64_unchecked(id.to_u64());
    assert!(other.same_as(&id));
    other.make_null();
    assert!(other.is_null());
}

#[test]
fn weekdays_of_the_proleptic_calendar() {
    assert_eq!(Date::new(1, 1, 1).weekday(), Weekday::Monday);
    assert_eq!(Date::new(0, 1, 1).weekday(), Weekday::Saturday);
    assert_eq!(Date::new(2000, 2, 29).weekday(), Weekday::Tuesday);
    assert_eq!(Date::new(1970, 1, 1).weekday(), Weekday::Thursday);
    assert_eq!(Date::new(-1, 12, 31).weekday(), Weekday::Friday);
}

#[test]
fn whole_minute_instants_come_back() {
    for nanos in [0i128, 60_000_000_000, -60_000_000_000, 1_700_000_040_000_000_000] {
        let dt = DateTime::from_unix_nanos(nanos);
        let rt = ReminderTime::from_time_dt(dt);
        assert_eq!(rt.to_time_dt().unix_nanos(), nanos);
        assert_eq!(ReminderTime::from_time_dt(rt.to_time_dt()), rt);
    }
}

#[test]
fn identifiers_parse_from_their_text() {
    let id = Id::parse("abcd-_09").unwrap();
    assert!(id.is_valid());
    assert_eq!(id.to_text(), "abcd-_09");
    assert_eq!(id.to_u64(), u64::from_be_bytes(*b"abcd-_09"));
    let random = Id::random();
    assert_eq!(Id::parse(&random.to_text()).map(|i| i.to_u64()), Some(random.to_u64()));
    assert!(Id::parse("abcdefg").is_none());
    assert!(Id::parse("abcdefghi").is_none());
    assert!(Id::parse("abcdefg!").is_none());
    assert!(Id::parse("abcdefé").is_none());
    assert!(Id::parse("").is_none());
}

#[test]
fn iso_week_dates_at_the_edges() {
    assert_eq!(Date::new(2021, 1, 1).to_iso_week_date(), (2020, 53, Weekday::Friday));
    assert_eq!(Date::new(2019, 12, 30).to_iso_week_date(), (2020, 1, Weekday::Monday));
    assert_eq!(Date::new(9999, 12, 31).to_iso_week_date(), (9999, 52, Weekday::Friday));
    assert_eq!(Date::new(-9999, 1, 1).to_iso_week_date(), (-9999, 1, Weekday::Monday));
    assert_eq!(
        Date::try_from_iso_week_date(2020, 53, Weekday::Friday),
        Some(Date::new(2021, 1, 1))
    );
    assert_eq!(
        Date::try_from_iso_week_date(-9999, 1, Weekday::Monday),
        Some(Date::new(-9999, 1, 1))
    );
    assert!(Date::try_from_iso_week_date(9999, 52, Weekday::Saturday).is_none());
    assert!(Date::try_from_iso_week_date(2019, 53, Weekday::Monday).is_none());
    assert!(Date::try_from_iso_week_date(2019, 0, Weekday::Monday).is_none());
    assert!(Date::try_from_iso_week_date(10000, 1, Weekday::Monday).is_none());
}

#[test]
fn reminder_times_at_the_ends_of_the_calendar() {
    let first = ReminderTime {
        date: Date::new(-9999, 1, 1),
        time: SimpleTime::from_military(Hour::from_u8(0), Minute::from_u8(0)),
    };
    assert_eq!(first.to_time_dt().unix_nanos(), -377_705_116_800_000_000_000);
    let last = ReminderTime {
        date: Date::new(9999, 12, 31),
        time: SimpleTime::from_military(Hour::from_u8(23), Minute::from_u8(59)),
    };
    assert_eq!(last.to_time_dt().unix_nanos(), 253_402_300_740_000_000_000);
    assert_eq!(ReminderTime::from_time_dt(last.to_time_dt()), last);
    let inside = DateTime::from_unix_nanos(253_402_300_799_999_999_999);
    assert_eq!(ReminderTime::from_time_dt(inside), last);
}
