use shiryoku::enums::ScheduleField;
use shiryoku::schedule::{
    choose_instant, default_lead, default_readings, is_calendar_date, is_clock_time,
    resolve_fields, year_text, ClockReading, LocalInstants, ResolvedSchedule, ScheduleState,
    FIRST_INSTANT, LAST_INSTANT, MAX_YEAR, MIN_YEAR,
};

fn dialog(
    day: &str,
    month: &str,
    year: &str,
    hour: &str,
    minute: &str,
    second: &str,
    zone: &str,
) -> ScheduleState {
    let mut state = ScheduleState::default();
    state.day = day.to_string();
    state.month = month.to_string();
    state.year = year.to_string();
    state.hour = hour.to_string();
    state.minute = minute.to_string();
    state.second = second.to_string();
    state.timezone_input = zone.to_string();
    state
}

fn instant(text: &str) -> Option<ResolvedSchedule> {
    let at = chrono::DateTime::parse_from_rfc3339(text).unwrap();
    Some(ResolvedSchedule { timestamp: at.timestamp() })
}

#[test]
fn thirty_first_of_february_does_not_resolve() {
    let state = dialog("31", "02", "2024", "10", "00", "00", "UTC");
    assert_eq!(state.calculate_utc_target(), None);
}

#[test]
fn time_in_a_spring_forward_gap_does_not_resolve() {
    let state = dialog("10", "03", "2024", "02", "30", "00", "America/New_York");
    assert_eq!(state.calculate_utc_target(), None);
    assert_eq!(dialog("10", "03", "2024", "01", "59", "59", "America/New_York").calculate_utc_target(),
        instant("2024-03-10T06:59:59Z"));
    assert_eq!(dialog("10", "03", "2024", "03", "00", "00", "America/New_York").calculate_utc_target(),
        instant("2024-03-10T07:00:00Z"));
}

#[test]
fn time_in_a_fall_back_window_resolves_to_the_earlier_instant() {
    let state = dialog("03", "11", "2024", "01", "30", "00", "America/New_York");
    assert_eq!(state.calculate_utc_target(), instant("2024-11-03T05:30:00Z"));
    let state = dialog("27", "10", "2024", "01", "30", "00", "Europe/London");
    assert_eq!(state.calculate_utc_target(), instant("2024-10-27T00:30:00Z"));
}

#[test]
fn summer_time_in_london_is_an_hour_ahead() {
    let state = dialog("15", "06", "2024", "09", "30", "00", "Europe/London");
    let target = state.calculate_utc_target();
    assert_eq!(target, instant("2024-06-15T08:30:00Z"));
    assert_eq!(target.unwrap().timestamp, 1718440200);
}

#[test]
fn ordinary_times_resolve() {
    assert_eq!(
        dialog("1", "1", "1970", "0", "0", "0", "UTC").calculate_utc_target(),
        Some(ResolvedSchedule { timestamp: 0 })
    );
    assert_eq!(
        dialog("29", "02", "2024", "23", "59", "59", "Asia/Tokyo").calculate_utc_target(),
        instant("2024-02-29T14:59:59Z")
    );
    assert_eq!(
        dialog("+5", "+6", "+2024", "+7", "+8", "+9", "UTC").calculate_utc_target(),
        instant("2024-06-05T07:08:09Z")
    );
    let ancient = chrono::NaiveDate::from_ymd_opt(-1, 1, 1)
        .unwrap()
        .and_hms_opt(0, 0, 0)
        .unwrap()
        .and_utc()
        .timestamp();
    assert_eq!(
        dialog("01", "01", "-0001", "00", "00", "00", "UTC").calculate_utc_target(),
        Some(ResolvedSchedule { timestamp: ancient })
    );
}

#[test]
fn calendar_invalid_dates_do_not_resolve() {
    for (day, month, year) in [
        ("31", "04", "2024"),
        ("31", "06", "2024"),
        ("31", "09", "2024"),
        ("31", "11", "2024"),
        ("30", "02", "2024"),
        ("29", "02", "2023"),
        ("29", "02", "1900"),
        ("32", "01", "2024"),
        ("0", "01", "2024"),
        ("01", "0", "2024"),
        ("01", "13", "2024"),
        ("01", "01", "262143"),
        ("01", "01", "-262144"),
    ] {
        assert_eq!(dialog(day, month, year, "10", "00", "00", "UTC").calculate_utc_target(), None);
    }
    assert!(dialog("29", "02", "2000", "10", "00", "00", "UTC").calculate_utc_target().is_some());
    assert!(dialog("31", "12", "262142", "10", "00", "00", "UTC").calculate_utc_target().is_some());
    assert!(dialog("01", "01", "-262143", "10", "00", "00", "UTC").calculate_utc_target().is_some());
}

#[test]
fn invalid_times_do_not_resolve() {
    assert_eq!(dialog("01", "01", "2024", "24", "00", "00", "UTC").calculate_utc_target(), None);
    assert_eq!(dialog("01", "01", "2024", "23", "60", "00", "UTC").calculate_utc_target(), None);
    assert_eq!(dialog("01", "01", "2024", "23", "59", "60", "UTC").calculate_utc_target(), None);
}

#[test]
fn fields_that_are_no_numbers_do_not_resolve() {
    let good = ["15", "06", "2024", "09", "30", "00"];
    for position in 0..6 {
        for bad in ["", "x", " 1", "1 ", "-1", "1.0", "99999999999", "+", "１"] {
            if position == 2 && bad == "-1" {
                continue;
            }
            let mut fields = good;
            fields[position] = bad;
            let state = dialog(
                fields[0], fields[1], fields[2], fields[3], fields[4], fields[5], "UTC",
            );
            assert_eq!(state.calculate_utc_target(), None);
        }
    }
}

#[test]
fn unknown_zones_do_not_resolve() {
    for zone in ["", "Mars/Olympus", "europe/london", " UTC", "Europe/London "] {
        assert_eq!(dialog("15", "06", "2024", "09", "30", "00", zone).calculate_utc_target(), None);
    }
}

#[test]
fn numbers_resolve_like_texts() {
    assert_eq!(
        resolve_fields(2024, 6, 15, 9, 30, 0, "Europe/London"),
        instant("2024-06-15T08:30:00Z")
    );
    assert_eq!(resolve_fields(2024, 2, 31, 10, 0, 0, "UTC"), None);
    assert_eq!(resolve_fields(2024, 3, 10, 2, 30, 0, "America/New_York"), None);
    assert_eq!(resolve_fields(2024, 6, 15, 9, 30, 0, "Nowhere"), None);
    assert_eq!(resolve_fields(2024, 6, 15, 25, 30, 0, "UTC"), None);
}

#[test]
fn the_earlier_of_two_instants_is_chosen() {
    assert_eq!(choose_instant(LocalInstants::Skipped), None);
    assert_eq!(choose_instant(LocalInstants::Single(7)), Some(ResolvedSchedule { timestamp: 7 }));
    assert_eq!(
        choose_instant(LocalInstants::Ambiguous(10, 20)),
        Some(ResolvedSchedule { timestamp: 10 })
    );
    assert_eq!(
        choose_instant(LocalInstants::Ambiguous(20, 10)),
        Some(ResolvedSchedule { timestamp: 10 })
    );
    assert_eq!(
        choose_instant(LocalInstants::Ambiguous(-5, -5)),
        Some(ResolvedSchedule { timestamp: -5 })
    );
}

#[test]
fn default_dialog_offers_every_zone() {
    let state = ScheduleState::default();
    assert!(state.day.is_empty() && state.year.is_empty() && state.timezone_input.is_empty());
    assert_eq!(state.active_field, ScheduleField::Day);
    assert!(!state.is_open);
    assert_eq!(state.selected_timezone_idx, 0);
    assert_eq!(state.available_timezones.len(), chrono_tz::TZ_VARIANTS.len());
    assert_eq!(state.filtered_timezones, state.available_timezones);
    assert!(state.available_timezones.iter().any(|zone| zone == "Europe/London"));
    assert!(state.available_timezones.iter().any(|zone| zone == "UTC"));
}

#[test]
fn zones_are_filtered_without_regard_to_case_and_blanks() {
    let mut state = ScheduleState::default();
    state.selected_timezone_idx = 5;
    state.timezone_input = "  LoNdOn ".to_string();
    state.update_timezone_filter();
    assert_eq!(state.filtered_timezones, vec!["Europe/London".to_string()]);
    assert_eq!(state.selected_timezone_idx, 0);

    state.timezone_input = "   ".to_string();
    state.update_timezone_filter();
    assert_eq!(state.filtered_timezones, state.available_timezones);

    state.timezone_input = "no such zone".to_string();
    state.update_timezone_filter();
    assert!(state.filtered_timezones.is_empty());

    state.timezone_input = "america/n".to_string();
    state.update_timezone_filter();
    let expected: Vec<String> = state
        .available_timezones
        .iter()
        .filter(|zone| zone.to_lowercase().contains("america/n"))
        .cloned()
        .collect();
    assert!(expected.len() > 1);
    assert_eq!(state.filtered_timezones, expected);
}

#[test]
fn date_and_time_fields_take_two_bytes_and_the_year_four() {
    let mut state = ScheduleState::default();
    for c in ['1', '2', '3'] {
        state.handle_input(c);
    }
    assert_eq!(state.day, "12");
    state.active_field = ScheduleField::Year;
    for c in ['2', '0', '2', '4', '5'] {
        state.handle_input(c);
    }
    assert_eq!(state.year, "2024");
    state.active_field = ScheduleField::Month;
    state.handle_input('é');
    state.handle_input('1');
    assert_eq!(state.month, "é");
    state.active_field = ScheduleField::Hour;
    state.handle_input('1');
    state.handle_input('é');
    state.handle_input('1');
    assert_eq!(state.hour, "1é");
    state.active_field = ScheduleField::Minute;
    state.handle_input('5');
    assert_eq!(state.minute, "5");
    state.active_field = ScheduleField::Second;
    state.handle_input('9');
    assert_eq!(state.second, "9");
    state.active_field = ScheduleField::Submit;
    state.handle_input('x');
    assert_eq!((state.day.as_str(), state.year.as_str()), ("12", "2024"));
}

#[test]
fn typing_a_zone_filters_as_you_type() {
    let mut state = ScheduleState::default();
    state.active_field = ScheduleField::Timezone;
    state.selected_timezone_idx = 3;
    for c in "Tokyo".chars() {
        state.handle_input(c);
    }
    assert_eq!(state.timezone_input, "Tokyo");
    assert_eq!(state.filtered_timezones, vec!["Asia/Tokyo".to_string()]);
    assert_eq!(state.selected_timezone_idx, 0);
    state.handle_backspace();
    assert_eq!(state.timezone_input, "Toky");
    assert_eq!(state.filtered_timezones, vec!["Asia/Tokyo".to_string()]);
    state.clear_current_field();
    assert_eq!(state.timezone_input, "");
    assert_eq!(state.filtered_timezones, state.available_timezones);
}

#[test]
fn backspace_and_clear_work_on_the_active_field() {
    let mut state = dialog("12", "11", "2024", "10", "09", "08", "");
    state.handle_backspace();
    assert_eq!(state.day, "1");
    state.handle_backspace();
    state.handle_backspace();
    assert_eq!(state.day, "");
    state.active_field = ScheduleField::Year;
    state.handle_backspace();
    assert_eq!(state.year, "202");
    state.clear_current_field();
    assert_eq!(state.year, "");
    state.active_field = ScheduleField::Month;
    state.clear_current_field();
    state.active_field = ScheduleField::Hour;
    state.handle_backspace();
    state.active_field = ScheduleField::Minute;
    state.clear_current_field();
    state.active_field = ScheduleField::Second;
    state.handle_backspace();
    state.active_field = ScheduleField::Submit;
    state.handle_backspace();
    state.clear_current_field();
    assert_eq!(
        (state.month.as_str(), state.hour.as_str(), state.minute.as_str(), state.second.as_str()),
        ("", "1", "", "0")
    );
}

#[test]
fn focus_goes_round_both_ways() {
    let mut state = ScheduleState::default();
    let order = [
        ScheduleField::Day,
        ScheduleField::Month,
        ScheduleField::Year,
        ScheduleField::Hour,
        ScheduleField::Minute,
        ScheduleField::Second,
        ScheduleField::Timezone,
        ScheduleField::Submit,
    ];
    for step in 0..order.len() {
        assert_eq!(state.active_field, order[step]);
        state.cycle_field(true);
    }
    assert_eq!(state.active_field, ScheduleField::Day);
    for step in (0..order.len()).rev() {
        state.cycle_field(false);
        assert_eq!(state.active_field, order[step]);
    }
}

#[test]
fn defaults_fill_an_empty_dialog() {
    let today = ClockReading { year: 2024, month: 6, day: 5, hour: 23, minute: 45 };
    let later = ClockReading { year: 2024, month: 6, day: 6, hour: 0, minute: 15 };
    let mut state = ScheduleState::default();
    state.active_field = ScheduleField::Hour;
    state.open_with_defaults(Some((today, later)));
    assert_eq!(
        (
            state.day.as_str(),
            state.month.as_str(),
            state.year.as_str(),
            state.hour.as_str(),
            state.minute.as_str(),
            state.second.as_str()
        ),
        ("05", "06", "2024", "00", "15", "00")
    );
    assert!(state.is_open);
    assert_eq!(state.active_field, ScheduleField::Day);
}

#[test]
fn defaults_leave_a_dated_dialog_alone() {
    let reading = ClockReading { year: 2030, month: 1, day: 2, hour: 3, minute: 4 };
    let mut state = dialog("15", "", "2024", "", "", "", "UTC");
    state.open_with_defaults(Some((reading, reading)));
    assert_eq!((state.day.as_str(), state.month.as_str(), state.year.as_str()), ("15", "", "2024"));
    assert!(state.is_open);

    let mut state = dialog("15", "06", "", "09", "30", "10", "UTC");
    state.open_with_defaults(Some((reading, reading)));
    assert_eq!(
        (state.day.as_str(), state.year.as_str(), state.hour.as_str(), state.second.as_str()),
        ("02", "2030", "03", "00")
    );

    let mut state = dialog("", "", "", "", "", "", "");
    state.open_with_defaults(None);
    assert!(state.day.is_empty());
    assert!(state.is_open);
}

#[test]
fn defaults_from_the_clock_resolve() {
    let mut state = ScheduleState::default();
    state.reset_defaults_if_empty();
    assert!(state.is_open);
    assert_eq!(state.day.len(), 2);
    assert_eq!(state.month.len(), 2);
    assert_eq!(state.year.len(), 4);
    assert_eq!(state.hour.len(), 2);
    assert_eq!(state.minute.len(), 2);
    assert_eq!(state.second, "00");
    let day: u32 = state.day.parse().unwrap();
    let month: u32 = state.month.parse().unwrap();
    let year: i32 = state.year.parse().unwrap();
    assert!((1..=31).contains(&day) && (1..=12).contains(&month) && year >= 2024);
    assert!(state.hour.parse::<u32>().unwrap() < 24);
    assert!(state.minute.parse::<u32>().unwrap() < 60);
}

#[test]
fn years_are_written_as_the_calendar_writes_them() {
    for year in [0, 5, 99, 1970, 2024, 9999, 10000, 12345, 262142, -1, -5, -1234, -99999] {
        let date = chrono::NaiveDate::from_ymd_opt(year, 1, 1).unwrap();
        assert_eq!(year_text(year), date.format("%Y").to_string());
    }
    assert_eq!(year_text(7), "0007");
    assert_eq!(year_text(-7), "-0007");
    assert_eq!(year_text(10000), "+10000");
}

#[test]
fn the_default_time_is_half_an_hour_ahead() {
    assert_eq!(default_lead(0), Some(1800));
    assert_eq!(default_lead(1718440200), Some(1718442000));
    assert_eq!(default_lead(-1800), Some(0));
    assert_eq!(default_lead(i64::MIN), Some(i64::MIN + 1800));
    assert_eq!(default_lead(i64::MAX - 1800), Some(i64::MAX));
    assert_eq!(default_lead(i64::MAX - 1799), None);
    assert_eq!(default_lead(i64::MAX), None);
}

#[test]
fn defaults_need_the_present_reading() {
    let today = ClockReading { year: 2024, month: 6, day: 15, hour: 23, minute: 45 };
    let later = ClockReading { year: 2024, month: 6, day: 16, hour: 0, minute: 15 };
    assert_eq!(default_readings(Some(today), Some(later)), Some((today, later)));
    assert_eq!(default_readings(Some(today), None), Some((today, today)));
    assert_eq!(default_readings(None, Some(later)), None);
    assert_eq!(default_readings(None, None), None);

    let mut state = ScheduleState::default();
    state.open_with_defaults(default_readings(Some(today), Some(later)));
    assert_eq!(
        (state.day.as_str(), state.month.as_str(), state.year.as_str()),
        ("15", "06", "2024")
    );
    assert_eq!(
        (state.hour.as_str(), state.minute.as_str(), state.second.as_str()),
        ("00", "15", "00")
    );
    let mut state = ScheduleState::default();
    state.open_with_defaults(default_readings(Some(today), None));
    assert!(state.is_open);
    assert_eq!(
        (state.day.as_str(), state.month.as_str(), state.year.as_str()),
        ("15", "06", "2024")
    );
    assert_eq!(
        (state.hour.as_str(), state.minute.as_str(), state.second.as_str()),
        ("23", "45", "00")
    );
    let mut state = ScheduleState::default();
    state.open_with_defaults(default_readings(None, Some(later)));
    assert!(state.is_open);
    assert!(state.day.is_empty() && state.year.is_empty() && state.hour.is_empty());
}

#[test]
fn a_dialog_without_a_date_is_always_filled() {
    for (day, year) in [("", ""), ("12", ""), ("", "2030")] {
        let mut state = dialog(day, "7", year, "1", "2", "3", "UTC");
        state.active_field = ScheduleField::Submit;
        state.reset_defaults_if_empty();
        assert!(state.is_open);
        assert_eq!(state.active_field, ScheduleField::Day);
        assert_eq!((state.day.len(), state.month.len(), state.second.as_str()), (2, 2, "00"));
        assert_eq!((state.hour.len(), state.minute.len()), (2, 2));
        assert!(state.year.parse::<i32>().unwrap() >= 2024);
        assert_eq!(state.timezone_input, "UTC");
    }
    let mut state = dialog("12", "7", "2030", "1", "2", "3", "UTC");
    state.reset_defaults_if_empty();
    assert!(state.is_open);
    assert_eq!(
        (state.day.as_str(), state.month.as_str(), state.year.as_str()),
        ("12", "7", "2030")
    );
    assert_eq!(
        (state.hour.as_str(), state.minute.as_str(), state.second.as_str()),
        ("1", "2", "3")
    );
}

#[test]
fn the_calendar_has_the_dates_of_the_gregorian_calendar() {
    let years = [
        MIN_YEAR - 1, MIN_YEAR, MIN_YEAR + 1, -2001, -2000, -1900, -400, -101, -100, -5, -4, -1,
        0, 1, 4, 100, 400, 1600, 1700, 1900, 1999, 2000, 2023, 2024, 2100, 2400, 9999, 10000,
        MAX_YEAR - 1, MAX_YEAR, MAX_YEAR + 1, i32::MIN, i32::MAX,
    ];
    for year in years {
        for month in [0u32, 1, 2, 3, 4, 5, 6, 7, 8, 9, 10, 11, 12, 13, u32::MAX] {
            for day in [0u32, 1, 2, 27, 28, 29, 30, 31, 32, 100, u32::MAX] {
                assert_eq!(
                    is_calendar_date(year, month, day),
                    chrono::NaiveDate::from_ymd_opt(year, month, day).is_some(),
                    "{}-{}-{}",
                    year,
                    month,
                    day
                );
            }
        }
    }
    assert!(is_calendar_date(2024, 2, 29));
    assert!(!is_calendar_date(2023, 2, 29));
    assert!(!is_calendar_date(1900, 2, 29));
    assert!(is_calendar_date(2000, 2, 29));
    assert!(!is_calendar_date(2024, 4, 31));
}

#[test]
fn a_day_has_the_times_of_the_clock() {
    for hour in [0u32, 1, 12, 23, 24, 25, u32::MAX] {
        for minute in [0u32, 1, 59, 60, 61, u32::MAX] {
            for second in [0u32, 1, 59, 60, 61, u32::MAX] {
                assert_eq!(
                    is_clock_time(hour, minute, second),
                    chrono::NaiveTime::from_hms_opt(hour, minute, second).is_some(),
                    "{}:{}:{}",
                    hour,
                    minute,
                    second
                );
            }
        }
    }
}

#[test]
fn the_calendar_begins_and_ends_where_the_clock_does() {
    assert_eq!(FIRST_INSTANT, chrono::DateTime::<chrono::Utc>::MIN_UTC.timestamp());
    assert_eq!(LAST_INSTANT, chrono::DateTime::<chrono::Utc>::MAX_UTC.timestamp());
    assert!(chrono::DateTime::from_timestamp(FIRST_INSTANT, 0).is_some());
    assert!(chrono::DateTime::from_timestamp(FIRST_INSTANT - 1, 0).is_none());
    assert!(chrono::DateTime::from_timestamp(LAST_INSTANT, 0).is_some());
    assert!(chrono::DateTime::from_timestamp(LAST_INSTANT + 1, 0).is_none());
    assert_eq!(default_lead(LAST_INSTANT), Some(LAST_INSTANT + 1800));
}

#[test]
fn the_zones_on_offer_are_the_ones_that_resolve() {
    let state = ScheduleState::default();
    let zones = &state.available_timezones;
    assert!(!zones.is_empty());
    let distinct: std::collections::BTreeSet<&String> = zones.iter().collect();
    assert_eq!(distinct.len(), zones.len());
    for zone in zones {
        assert!(resolve_fields(2024, 1, 1, 12, 0, 0, zone).is_some(), "{}", zone);
    }
    for name in ["utc", "europe/london", "Europe/London ", "Mars/Olympus", ""] {
        assert!(!zones.iter().any(|zone| zone == name));
        assert!(resolve_fields(2024, 1, 1, 12, 0, 0, name).is_none(), "{}", name);
    }
}

#[test]
fn clearing_the_zone_field_shows_every_zone() {
    let mut state = ScheduleState::default();
    state.active_field = ScheduleField::Timezone;
    for c in "tokyo".chars() {
        state.handle_input(c);
    }
    assert_eq!(state.filtered_timezones, vec!["Asia/Tokyo".to_string()]);
    state.selected_timezone_idx = 0;
    state.clear_current_field();
    assert!(state.timezone_input.is_empty());
    assert_eq!(state.filtered_timezones, state.available_timezones);
    assert_eq!(state.selected_timezone_idx, 0);
    assert_eq!(state.active_field, ScheduleField::Timezone);

    for blank in ["", " ", "\t\n", "\u{3000}\u{a0}", "\u{2003} \u{85}"] {
        state.timezone_input = blank.to_string();
        state.update_timezone_filter();
        assert_eq!(state.filtered_timezones, state.available_timezones, "{:?}", blank);
    }
    state.timezone_input = "\u{200b}".to_string();
    state.update_timezone_filter();
    assert!(state.filtered_timezones.is_empty());
}
