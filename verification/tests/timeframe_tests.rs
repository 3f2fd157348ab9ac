use urbit_chatbot::timeframe::{build_timeframe, parse_timeframe};

#[test]
fn parse_timeframe_minutes() {
    assert_eq!(parse_timeframe("1".to_string()), "1");
    assert_eq!(parse_timeframe("1min".to_string()), "1");
    assert_eq!(parse_timeframe("3mins".to_string()), "3");
    assert_eq!(parse_timeframe("5minute".to_string()), "5");
    assert_eq!(parse_timeframe("15minutes".to_string()), "15");
    assert_eq!(parse_timeframe("30m".to_string()), "30");
}

#[test]
fn parse_timeframe_hours() {
    assert_eq!(parse_timeframe("1h".to_string()), "60");
    assert_eq!(parse_timeframe("hourly".to_string()), "60");
    assert_eq!(parse_timeframe("2hours".to_string()), "120");
    assert_eq!(parse_timeframe("3hr".to_string()), "180");
    assert_eq!(parse_timeframe("4hrs".to_string()), "240");
}

#[test]
fn parse_timeframe_long_ranges() {
    assert_eq!(parse_timeframe("24h".to_string()), "D");
    assert_eq!(parse_timeframe("daily".to_string()), "D");
    assert_eq!(parse_timeframe("weekly".to_string()), "W");
    assert_eq!(parse_timeframe("7days".to_string()), "W");
    assert_eq!(parse_timeframe("mo".to_string()), "M");
    assert_eq!(parse_timeframe("monthly".to_string()), "M");
    assert_eq!(parse_timeframe("annual".to_string()), "Y");
    assert_eq!(parse_timeframe("y".to_string()), "Y");
}

#[test]
fn parse_timeframe_first_row_wins() {
    // "m" is listed both for one minute and for one month; the minute row
    // stands first in the table and wins.
    assert_eq!(parse_timeframe("m".to_string()), "1");
    // "1m" likewise means one minute, not one month.
    assert_eq!(parse_timeframe("1m".to_string()), "1");
}

#[test]
fn parse_timeframe_unknown_phrase_falls_back() {
    assert_eq!(parse_timeframe("fortnight".to_string()), "1");
    assert_eq!(parse_timeframe("".to_string()), "1");
    // A timeframe code is not itself a phrase.
    assert_eq!(parse_timeframe("D".to_string()), "1");
}

#[test]
fn build_timeframe_keeps_fields() {
    let tf = build_timeframe(vec!["1".to_string(), "1m".to_string()], "1".to_string());
    assert_eq!(tf.parsable_phrases, vec!["1".to_string(), "1m".to_string()]);
    assert_eq!(tf.parsed, "1");
}
