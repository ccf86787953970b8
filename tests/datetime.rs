use pltx::color::{color_or, parse_color};
use pltx::datetime::{db_datetime_option, parse_user_datetime, parse_user_datetime_option};
use ratatui::style::Color;

#[test]
fn typed_dates_become_rfc3339() {
    assert_eq!(
        parse_user_datetime_option(String::from("2000-01-01 00:00")),
        Some(String::from("2000-01-01T00:00:00+00:00"))
    );
    assert_eq!(
        parse_user_datetime(String::from("2024-02-29 13:45")),
        Ok(String::from("2024-02-29T13:45:00+00:00"))
    );
}

#[test]
fn malformed_dates_are_refused() {
    assert_eq!(parse_user_datetime_option(String::from("2000-01-01 0:00")), None);
    assert_eq!(parse_user_datetime_option(String::from("2000-13-01 00:00")), None);
    assert_eq!(parse_user_datetime_option(String::from("")), None);
    assert!(parse_user_datetime(String::from("2023-02-29 10:00")).is_err());
}

#[test]
fn stored_dates_become_instants() {
    assert_eq!(db_datetime_option(Some(String::from("1970-01-02T00:00:00+00:00"))), Some(86400));
    assert_eq!(db_datetime_option(Some(String::from("2000-01-01T00:00:00+00:00"))), Some(946684800));
    assert_eq!(db_datetime_option(Some(String::from("yesterday"))), None);
    assert_eq!(db_datetime_option(None), None);
}

#[test]
fn colors_parse_or_fall_back() {
    assert_eq!(parse_color("#FF0000"), Some(Color::Rgb(255, 0, 0)));
    assert_eq!(parse_color("blue"), Some(Color::Blue));
    assert_eq!(parse_color("#FF00"), None);
    assert_eq!(parse_color("#ééé"), None);
    assert_eq!(color_or("#00ff0", Color::Black), Color::Black);
    assert_eq!(color_or("#00ff00", Color::Black), Color::Rgb(0, 255, 0));
}
