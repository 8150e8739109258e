//! The three temporal adapters: strict parsing, the sanctioned empty time
//! string, and decode errors (never panics) on malformed input.

use chrono::Datelike;
use chrono::Timelike;
use tvmaze::models::time::parse_date;
use tvmaze::models::time::parse_stamp;
use tvmaze::models::time::parse_time;
use tvmaze::DecodeError;

#[test]
fn date_parses_strict() {
    let d = parse_date("2014-12-01").unwrap();
    assert_eq!(d.year, 2014);
    assert_eq!(d.month, 12);
    assert_eq!(d.day, 1);
}

#[test]
fn date_empty_is_error() {
    assert_eq!(parse_date(""), Err(DecodeError::Date));
}

#[test]
fn date_malformed_is_error() {
    assert_eq!(parse_date("2014-13-01"), Err(DecodeError::Date));
    assert_eq!(parse_date("2014-00-10"), Err(DecodeError::Date));
    assert_eq!(parse_date("2014-12-32"), Err(DecodeError::Date));
    assert_eq!(parse_date("2014-12-1"), Err(DecodeError::Date));
    assert_eq!(parse_date("2014/12/01"), Err(DecodeError::Date));
    assert_eq!(parse_date("not a date"), Err(DecodeError::Date));
}

#[test]
fn date_respects_leap_years() {
    assert!(parse_date("2016-02-29").is_ok());
    assert_eq!(parse_date("2015-02-29"), Err(DecodeError::Date));
    assert!(parse_date("2000-02-29").is_ok());
    assert_eq!(parse_date("1900-02-29"), Err(DecodeError::Date));
}

#[test]
fn time_empty_means_absent() {
    let t = parse_time("").unwrap();
    assert!(t.time.is_none());
}

#[test]
fn time_parses_strict() {
    let t = parse_time("21:00").unwrap().time.unwrap();
    assert_eq!(t.hour, 21);
    assert_eq!(t.minute, 0);
}

#[test]
fn time_malformed_is_error_not_absent() {
    assert_eq!(parse_time("25:99"), Err(DecodeError::Time));
    assert_eq!(parse_time("24:00"), Err(DecodeError::Time));
    assert_eq!(parse_time("9:30"), Err(DecodeError::Time));
    assert_eq!(parse_time("21-00"), Err(DecodeError::Time));
}

#[test]
fn stamp_parses_with_negative_offset() {
    let t = parse_stamp("2014-12-01T21:00:00-05:00").unwrap();
    assert_eq!(t.date.year, 2014);
    assert_eq!(t.date.month, 12);
    assert_eq!(t.date.day, 1);
    assert_eq!(t.time.hour, 21);
    assert_eq!(t.time.minute, 0);
    assert_eq!(t.second, 0);
    assert_eq!(t.offset_minutes, -300);
}

#[test]
fn stamp_parses_with_positive_offset() {
    let t = parse_stamp("2016-09-26T01:30:15+05:30").unwrap();
    assert_eq!(t.second, 15);
    assert_eq!(t.offset_minutes, 330);
}

#[test]
fn stamp_malformed_is_error() {
    assert_eq!(parse_stamp(""), Err(DecodeError::Timestamp));
    assert_eq!(
        parse_stamp("2014-12-01 21:00:00-05:00"),
        Err(DecodeError::Timestamp)
    );
    assert_eq!(parse_stamp("2014-12-01T21:00:00Z"), Err(DecodeError::Timestamp));
    assert_eq!(
        parse_stamp("2014-12-01T24:00:00-05:00"),
        Err(DecodeError::Timestamp)
    );
}

// The service's formats are exactly the ones chrono reads with the formats
// `%Y-%m-%d`, `%H:%M` and `%Y-%m-%dT%H:%M:%S%:z`; on canonical,
// fixed-width candidates the adapters must agree with chrono, both on
// acceptance and on the values read.

#[test]
fn date_agrees_with_chrono_on_fixed_width_candidates() {
    let candidates = [
        "2014-12-01",
        "2016-02-29",
        "2015-02-29",
        "1900-02-29",
        "2000-02-29",
        "0001-01-01",
        "9999-12-31",
        "2014-00-10",
        "2014-13-01",
        "2014-12-00",
        "2014-12-32",
        "2014-11-31",
    ];
    for s in candidates {
        let ours = parse_date(s);
        let theirs = chrono::NaiveDate::parse_from_str(s, "%Y-%m-%d");
        assert_eq!(ours.is_ok(), theirs.is_ok(), "disagree on {:?}", s);
        if let (Ok(d), Ok(cd)) = (ours, theirs) {
            assert_eq!(d.year as i32, cd.year());
            assert_eq!(d.month as u32, cd.month());
            assert_eq!(d.day as u32, cd.day());
        }
    }
}

#[test]
fn time_agrees_with_chrono_on_fixed_width_candidates() {
    let candidates = ["00:00", "21:00", "23:59", "24:00", "21:60", "25:99"];
    for s in candidates {
        let ours = parse_time(s);
        let theirs = chrono::NaiveTime::parse_from_str(s, "%H:%M");
        assert_eq!(ours.is_ok(), theirs.is_ok(), "disagree on {:?}", s);
        if let (Ok(t), Ok(ct)) = (ours, theirs) {
            let t = t.time.unwrap();
            assert_eq!(t.hour as u32, ct.hour());
            assert_eq!(t.minute as u32, ct.minute());
        }
    }
}

#[test]
fn stamp_agrees_with_chrono_on_fixed_width_candidates() {
    let candidates = [
        "2014-12-01T21:00:00-05:00",
        "2016-09-26T01:30:15+05:30",
        "2013-06-25T02:00:00+00:00",
        "2014-12-01T24:00:00-05:00",
        "2015-02-29T12:00:00+01:00",
    ];
    for s in candidates {
        let ours = parse_stamp(s);
        let theirs = chrono::DateTime::parse_from_str(s, "%Y-%m-%dT%H:%M:%S%:z");
        assert_eq!(ours.is_ok(), theirs.is_ok(), "disagree on {:?}", s);
        if let (Ok(t), Ok(ct)) = (ours, theirs) {
            assert_eq!(t.offset_minutes * 60, ct.offset().local_minus_utc());
        }
    }
}
