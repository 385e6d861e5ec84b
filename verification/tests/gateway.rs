use ruuvi_monitor::error::FormatError;
use ruuvi_monitor::gateway::{
    decode_gateway_entry, effective_timestamp, gateway_reading, parse_ruuvi_gateway_format,
};
use ruuvi_monitor::model::{Metric, Reading};
use ruuvi_monitor::trend::Trend;
use serde_json::Value;

fn json(text: &str) -> Value {
    serde_json::from_str(text).unwrap()
}

fn bits(number: f64) -> u64 {
    number.to_bits()
}

#[test]
fn gateway_scenario_normalizes_to_one_reading() {
    let payload = json(
        r#"{"data":{"tags":{"AA:BB":{"temperature":21.5,"humidity":40.0,"voltage":2.0,"timestamp":1700000000}}}}"#,
    );
    let snapshot = parse_ruuvi_gateway_format(&payload, 1700000100).unwrap();
    assert_eq!(snapshot.len(), 1);
    let reading = snapshot.get(0).unwrap();
    assert_eq!(reading.name, "AA:BB");
    assert!(reading.battery_low);
    assert_eq!(f64::from_bits(reading.temperature.current), 21.5);
    assert_eq!(f64::from_bits(reading.humidity.current), 40.0);
    assert_eq!(reading.observed_at, Some(1700000000));
    assert!(!reading.unreachable);
    assert!(snapshot.get(1).is_none());
}

#[test]
fn gateway_readings_have_no_bounds_and_a_flat_trend() {
    let payload = json(
        r#"{"data":{"tags":{
            "AA:BB":{"temperature":21.5,"humidity":40.0,"voltage":2.9,"timestamp":1700000000},
            "CC:DD":{"temperature":-3.25,"humidity":88,"voltage":3.1,"timestamp":1700000001}
        }}}"#,
    );
    let snapshot = parse_ruuvi_gateway_format(&payload, 0).unwrap();
    assert_eq!(snapshot.len(), 2);
    for reading in snapshot.readings() {
        for metric in [reading.temperature, reading.humidity] {
            assert_eq!(metric.min, metric.current);
            assert_eq!(metric.max, metric.current);
            assert_eq!(metric.trend, Trend::Flat);
        }
    }
    let second = snapshot.get(1).unwrap();
    assert_eq!(second.name, "CC:DD");
    assert_eq!(f64::from_bits(second.temperature.current), -3.25);
    assert_eq!(f64::from_bits(second.humidity.current), 88.0);
}

#[test]
fn battery_is_low_at_two_volts_and_below() {
    let at = |voltage: Option<f64>| {
        gateway_reading("x".to_string(), None, None, voltage.map(bits), 0).battery_low
    };
    assert!(at(Some(2.0)));
    assert!(!at(Some(2.01)));
    assert!(!at(None));
    assert!(at(Some(1.5)));
    assert!(at(Some(0.0)));
    assert!(at(Some(-1.0)));
    assert!(!at(Some(3.0)));
    assert!(!at(Some(f64::NAN)));
}

#[test]
fn battery_threshold_through_the_payload() {
    let low = json(r#"{"data":{"tags":{"a":{"voltage":2.0}}}}"#);
    let fine = json(r#"{"data":{"tags":{"a":{"voltage":2.01}}}}"#);
    let missing = json(r#"{"data":{"tags":{"a":{}}}}"#);
    let whole = json(r#"{"data":{"tags":{"a":{"voltage":2}}}}"#);
    assert!(parse_ruuvi_gateway_format(&low, 0).unwrap().get(0).unwrap().battery_low);
    assert!(!parse_ruuvi_gateway_format(&fine, 0).unwrap().get(0).unwrap().battery_low);
    assert!(!parse_ruuvi_gateway_format(&missing, 0).unwrap().get(0).unwrap().battery_low);
    assert!(parse_ruuvi_gateway_format(&whole, 0).unwrap().get(0).unwrap().battery_low);
}

#[test]
fn missing_members_take_their_defaults() {
    let payload = json(r#"{"data":{"tags":{"EE:FF":{}}}}"#);
    let snapshot = parse_ruuvi_gateway_format(&payload, 1234).unwrap();
    let expected = Reading {
        name: "EE:FF".to_string(),
        observed_at: Some(1234),
        temperature: Metric { current: bits(0.0), min: bits(0.0), max: bits(0.0), trend: Trend::Flat },
        humidity: Metric { current: bits(0.0), min: bits(0.0), max: bits(0.0), trend: Trend::Flat },
        battery_low: false,
        unreachable: false,
    };
    assert_eq!(snapshot.readings(), &vec![expected]);
}

#[test]
fn members_of_the_wrong_type_take_their_defaults() {
    let payload = json(
        r#"{"data":{"tags":{"a":{"temperature":"hot","humidity":null,"voltage":[1],"timestamp":"now"}}}}"#,
    );
    let snapshot = parse_ruuvi_gateway_format(&payload, 77).unwrap();
    let reading = snapshot.get(0).unwrap();
    assert_eq!(reading.temperature.current, bits(0.0));
    assert_eq!(reading.humidity.current, bits(0.0));
    assert!(!reading.battery_low);
    assert_eq!(reading.observed_at, Some(77));
}

#[test]
fn payload_without_tags_is_malformed() {
    for text in [
        r#"{}"#,
        r#"{"data":{}}"#,
        r#"{"data":{"tags":[]}}"#,
        r#"{"data":{"tags":null}}"#,
        r#"{"data":{"tags":"x"}}"#,
        r#"{"data":[1,2]}"#,
        r#"[]"#,
        r#"null"#,
        r#"{"tags":{"a":{}}}"#,
    ] {
        assert_eq!(
            parse_ruuvi_gateway_format(&json(text), 0),
            Err(FormatError::MalformedPayload),
            "{}",
            text
        );
    }
}

#[test]
fn empty_tags_give_an_empty_snapshot() {
    let snapshot = parse_ruuvi_gateway_format(&json(r#"{"data":{"tags":{}}}"#), 0).unwrap();
    assert_eq!(snapshot.len(), 0);
}

#[test]
fn corrupt_entries_are_skipped() {
    let payload = json(
        r#"{"data":{"tags":{
            "a":{"temperature":1.0,"timestamp":10},
            "b":"not an object",
            "c":{"temperature":2.0,"timestamp":9223372036854775807},
            "d":[1,2,3],
            "e":{"temperature":3.0,"timestamp":30}
        }}}"#,
    );
    let snapshot = parse_ruuvi_gateway_format(&payload, 0).unwrap();
    let names: Vec<&str> = snapshot.readings().iter().map(|r| r.name.as_str()).collect();
    assert_eq!(names, vec!["a", "e"]);
    assert_eq!(snapshot.get(1).unwrap().observed_at, Some(30));
    assert_eq!(f64::from_bits(snapshot.get(1).unwrap().temperature.current), 3.0);
}

#[test]
fn a_missing_timestamp_outside_the_calendar_corrupts_the_entry() {
    let payload = json(r#"{"data":{"tags":{"a":{"temperature":1.0}}}}"#);
    assert_eq!(parse_ruuvi_gateway_format(&payload, i64::MIN).unwrap().len(), 0);
    assert_eq!(parse_ruuvi_gateway_format(&payload, 0).unwrap().len(), 1);
}

#[test]
fn one_entry_decodes_or_is_reported_corrupt() {
    let key = "AA:BB".to_string();
    let good = json(r#"{"temperature":21.5,"humidity":40.0,"voltage":2.0,"timestamp":1700000000}"#);
    let reading = decode_gateway_entry(&key, &good, 5).unwrap();
    assert_eq!(reading.name, "AA:BB");
    assert_eq!(reading.observed_at, Some(1700000000));
    assert_eq!(reading.temperature.current, bits(21.5));
    assert!(reading.battery_low);

    let out_of_range = json(r#"{"timestamp":-9223372036854775808}"#);
    assert_eq!(decode_gateway_entry(&key, &out_of_range, 5), Err(FormatError::PerEntryCorruption));
    assert_eq!(decode_gateway_entry(&key, &json("17"), 5), Err(FormatError::PerEntryCorruption));
    assert_eq!(decode_gateway_entry(&key, &json("null"), 5), Err(FormatError::PerEntryCorruption));
}

#[test]
fn a_fractional_timestamp_is_no_timestamp() {
    let key = "a".to_string();
    let entry = json(r#"{"timestamp":1700000000.5}"#);
    assert_eq!(decode_gateway_entry(&key, &entry, 42).unwrap().observed_at, Some(42));
}

#[test]
fn the_timestamp_of_an_entry_wins_over_now() {
    assert_eq!(effective_timestamp(Some(7), 9), 7);
    assert_eq!(effective_timestamp(None, 9), 9);
    assert_eq!(effective_timestamp(Some(i64::MIN), 0), i64::MIN);
}

#[test]
fn normalizing_twice_gives_equal_snapshots() {
    let payload = json(
        r#"{"data":{"tags":{
            "AA:BB":{"temperature":21.5,"humidity":40.0,"voltage":2.0,"timestamp":1700000000},
            "CC:DD":{"temperature":19.0,"humidity":55.5},
            "EE:FF":7
        }}}"#,
    );
    let first = parse_ruuvi_gateway_format(&payload, 1700000050);
    let second = parse_ruuvi_gateway_format(&payload, 1700000050);
    assert!(first.is_ok());
    assert_eq!(first, second);
    let bad = json(r#"{"data":7}"#);
    assert_eq!(parse_ruuvi_gateway_format(&bad, 1), parse_ruuvi_gateway_format(&bad, 1));
}

#[test]
fn names_in_a_gateway_snapshot_are_distinct() {
    let payload = json(r#"{"data":{"tags":{"a":{},"b":{},"c":{},"a":{"temperature":5}}}}"#);
    let snapshot = parse_ruuvi_gateway_format(&payload, 0).unwrap();
    let mut names: Vec<String> = snapshot.readings().iter().map(|r| r.name.clone()).collect();
    let count = names.len();
    names.sort();
    names.dedup();
    assert_eq!(names.len(), count);
    assert_eq!(count, 3);
}
