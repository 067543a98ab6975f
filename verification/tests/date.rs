use pdoc::date::{CalendarDate, DateError, DateString};

fn date(text: &str) -> DateString {
    DateString::try_new(text.to_owned()).unwrap()
}

#[test]
fn dates_are_written_out_in_long_form() {
    assert_eq!(date("2023-02-17").to_string_long_form(), "February 17, 2023");
    assert_eq!(date("2023-01-07").to_string_long_form(), "January 7, 2023");
    assert_eq!(date("0005-12-31").to_string_long_form(), "December 31, 0005");
    let months = [
        "January", "February", "March", "April", "May", "June", "July", "August", "September",
        "October", "November", "December",
    ];
    for (i, name) in months.iter().enumerate() {
        let text = format!("2024-{:02}-01", i + 1);
        assert_eq!(date(&text).to_string_long_form(), format!("{} 1, 2024", name));
    }
}

#[test]
fn long_form_agrees_with_time() {
    let description =
        time::format_description::parse("[month repr:long] [day padding:none], [year]").unwrap();
    for (y, m, d) in [(2023, 2, 17), (1999, 12, 31), (2000, 2, 29), (7, 1, 1), (9999, 12, 31)] {
        let expected = time::Date::from_calendar_date(y, time::Month::try_from(m).unwrap(), d)
            .unwrap()
            .format(&description)
            .unwrap();
        let ours = DateString::from_date(CalendarDate::new(y, m, d).unwrap());
        assert_eq!(ours.to_string_long_form(), expected);
    }
}

#[test]
fn malformed_dates_are_refused() {
    for text in ["not-a-date", "", "2023-2-17", "2023/02/17", "+2023-02-17", "2023-02-17 ", "20230217", "２０２３-02-17"] {
        assert!(matches!(DateString::try_new(text.to_owned()), Err(DateError::Malformed)), "{}", text);
    }
}

#[test]
fn days_that_the_calendar_lacks_are_refused() {
    for text in ["2023-13-01", "2023-00-10", "2023-02-29", "2023-04-31", "2023-01-00", "2023-01-32", "1900-02-29"] {
        assert!(matches!(DateString::try_new(text.to_owned()), Err(DateError::NoSuchDay)), "{}", text);
    }
}

#[test]
fn leap_days_are_accepted() {
    for text in ["2024-02-29", "2000-02-29", "0000-02-29"] {
        assert_eq!(date(text).as_str(), text);
    }
}

#[test]
fn date_strings_and_dates_convert_both_ways() {
    let day = date("2023-02-17").to_date();
    assert_eq!((day.year(), day.month(), day.day()), (2023, 2, 17));
    assert_eq!(DateString::from_date(day).as_str(), "2023-02-17");
    assert_eq!(DateString::from_date(CalendarDate::new(5, 1, 9).unwrap()).as_str(), "0005-01-09");
    assert!(CalendarDate::new(2023, 2, 29).is_none());
    assert!(CalendarDate::new(2023, 0, 1).is_none());
    assert!(CalendarDate::new(2023, 13, 1).is_none());
    assert!(CalendarDate::new(-1, 1, 1).is_none());
    assert!(CalendarDate::new(10000, 1, 1).is_none());
    assert_eq!(date("2023-02-17"), date("2023-02-17"));
    assert_ne!(date("2023-02-17"), date("2023-02-18"));
}

#[test]
fn due_dates_are_days_later() {
    assert_eq!(date("2023-02-17").checked_add_days(7).unwrap().as_str(), "2023-02-24");
    assert_eq!(date("2023-01-07").checked_add_days(14).unwrap().as_str(), "2023-01-21");
    assert_eq!(date("2023-12-25").checked_add_days(7).unwrap().as_str(), "2024-01-01");
    assert_eq!(date("2024-02-28").checked_add_days(1).unwrap().as_str(), "2024-02-29");
    assert_eq!(date("2023-02-28").checked_add_days(1).unwrap().as_str(), "2023-03-01");
    assert_eq!(date("2023-02-17").checked_add_days(0).unwrap().as_str(), "2023-02-17");
    assert!(date("9999-12-31").checked_add_days(1).is_none());
    assert_eq!(date("9999-12-30").checked_add_days(1).unwrap().as_str(), "9999-12-31");
}
