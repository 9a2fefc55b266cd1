use noted::error::NoteErrorKind;
use noted::file_rolling::FileRolling;

#[test]
fn when_daily_string_is_parsed_then_daily_file_rolling_is_returned() {
    assert_eq!(FileRolling::Daily, FileRolling::from_str("Daily").unwrap());
}

#[test]
fn when_week_string_is_parsed_then_week_file_rolling_is_returned() {
    assert_eq!(FileRolling::Week, FileRolling::from_str("Week").unwrap());
}

#[test]
fn when_month_string_is_parsed_then_month_file_rolling_is_returned() {
    assert_eq!(FileRolling::Month, FileRolling::from_str("Month").unwrap());
}

#[test]
fn when_year_string_is_parsed_then_year_file_rolling_is_returned() {
    assert_eq!(FileRolling::Year, FileRolling::from_str("Year").unwrap());
}

#[test]
fn when_never_string_is_parsed_then_never_file_rolling_is_returned() {
    assert_eq!(FileRolling::Never, FileRolling::from_str("Never").unwrap());
}

#[test]
fn when_week_lowercase_string_is_parsed_then_week_file_rolling_is_returned() {
    assert_eq!(FileRolling::Week, FileRolling::from_str("week").unwrap());
}

#[test]
fn when_uppercase_string_is_parsed_then_file_rolling_is_returned() {
    assert_eq!(FileRolling::Daily, FileRolling::from_str("DAILY").unwrap());
}

#[test]
fn when_invalid_string_is_parsed_then_an_error_is_returned() {
    let file_rolling = FileRolling::from_str("Abc");
    assert!(file_rolling.is_err());
    let err = file_rolling.unwrap_err();
    assert_eq!(NoteErrorKind::InvalidInput, err.kind());
    assert_eq!("unable to parse file rolling from 'Abc'", err.message());
}

#[test]
fn file_rolling_when_invalid_string_is_parsed_then_an_error_is_returned() {
    let file_rolling = FileRolling::from_str("Abc");
    assert!(file_rolling.is_err());
    assert_eq!(
        "unable to parse file rolling from 'Abc'",
        FileRolling::from_str("Abc").unwrap_err().message()
    );
}
