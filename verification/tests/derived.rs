use ruuvi_monitor::adapter::{select_adapter, Adapter};
use ruuvi_monitor::alert::{classify_alert, Alert};
use ruuvi_monitor::clock::{format_time_ago, relative_time};
use ruuvi_monitor::decimal::{digit_text, format_decimal, format_digits};
use ruuvi_monitor::error::FormatError;
use ruuvi_monitor::ieee::{bits_le, THREE, TWO, ZERO};
use ruuvi_monitor::model::{check_readings, Metric, Reading, Snapshot};
use ruuvi_monitor::rows::{display_row, display_rows};
use ruuvi_monitor::trend::{trend_arrow, trend_glyph, Trend};
use serde_json::Value;

fn reading(name: &str, battery_low: bool, unreachable: bool) -> Reading {
    Reading {
        name: name.to_string(),
        observed_at: Some(1000),
        temperature: Metric {
            current: 21.5f64.to_bits(),
            min: 20.0f64.to_bits(),
            max: 23.0f64.to_bits(),
            trend: Trend::Rising,
        },
        humidity: Metric::at(40.0f64.to_bits()),
        battery_low,
        unreachable,
    }
}

#[test]
fn relative_time_counts_in_whole_units() {
    let t: i64 = 1700000000;
    assert_eq!(relative_time(Some(t), t), "0 seconds ago");
    assert_eq!(relative_time(Some(t - 90), t), "1 minutes ago");
    assert_eq!(relative_time(Some(t - 90000), t), "1 days ago");
    assert_eq!(relative_time(None, t), "unknown");
    assert_eq!(relative_time(Some(t - 59), t), "59 seconds ago");
    assert_eq!(relative_time(Some(t - 60), t), "1 minutes ago");
    assert_eq!(relative_time(Some(t - 3599), t), "59 minutes ago");
    assert_eq!(relative_time(Some(t - 3600), t), "1 hours ago");
    assert_eq!(relative_time(Some(t - 86399), t), "23 hours ago");
    assert_eq!(relative_time(Some(t - 86400), t), "1 days ago");
    assert_eq!(relative_time(Some(t - 864000), t), "10 days ago");
}

#[test]
fn an_instant_ahead_of_now_has_a_negative_age() {
    assert_eq!(relative_time(Some(105), 100), "-5 seconds ago");
    assert_eq!(relative_time(Some(100 + 7200), 100), "-7200 seconds ago");
}

#[test]
fn relative_time_at_the_ends_of_the_clock() {
    assert_eq!(relative_time(Some(i64::MIN), i64::MAX), "213503982334601 days ago");
    assert_eq!(relative_time(Some(i64::MAX), i64::MIN), "-18446744073709551615 seconds ago");
}

#[test]
fn format_time_ago_reads_the_datetime() {
    let now: i64 = 1700000000;
    assert_eq!(format_time_ago("2023-11-14T22:13:20Z", now), "0 seconds ago");
    assert_eq!(format_time_ago("2023-11-14T22:11:50Z", now), "1 minutes ago");
    assert_eq!(format_time_ago("2023-11-13 21:13:20+00:00", now), "1 days ago");
    assert_eq!(format_time_ago("2023-11-14T23:13:20+01:00", now), "0 seconds ago");
    assert_eq!(format_time_ago("2023-11-14T20:13:20Z", now), "2 hours ago");
}

#[test]
fn format_time_ago_of_an_unreadable_datetime_is_unknown() {
    assert_eq!(format_time_ago("not a date", 1700000000), "unknown");
    assert_eq!(format_time_ago("", 0), "unknown");
    assert_eq!(format_time_ago("1700000000", 1700000000), "unknown");
}

#[test]
fn decimal_text_of_integers() {
    assert_eq!(format_decimal(0), "0");
    assert_eq!(format_decimal(7), "7");
    assert_eq!(format_decimal(-1), "-1");
    assert_eq!(format_decimal(1234567890), "1234567890");
    assert_eq!(format_decimal(-1002003), "-1002003");
    assert_eq!(format_decimal(i128::MAX), i128::MAX.to_string());
    assert_eq!(format_decimal(i128::MIN), i128::MIN.to_string());
    assert_eq!(format_digits(u128::MAX), u128::MAX.to_string());
    assert_eq!(format_digits(10), "10");
    for d in 0..10u8 {
        assert_eq!(digit_text(d), d.to_string());
    }
}

#[test]
fn unreachable_is_reported_before_a_low_battery() {
    assert_eq!(classify_alert(&reading("a", true, true)), Some(Alert::Unreachable));
    assert_eq!(classify_alert(&reading("a", false, true)), Some(Alert::Unreachable));
    assert_eq!(classify_alert(&reading("a", true, false)), Some(Alert::BatteryLow));
    assert_eq!(classify_alert(&reading("a", false, false)), None);
    assert_eq!(Alert::Unreachable.label_text(), "Unreachable");
    assert_eq!(Alert::BatteryLow.label_text(), "Battery low");
}

#[test]
fn the_dispatcher_defaults_to_passthrough() {
    assert_eq!(select_adapter("gateway-history"), Adapter::GatewayHistory);
    assert_eq!(select_adapter("passthrough"), Adapter::Passthrough);
    assert_eq!(select_adapter("nonsense"), Adapter::Passthrough);
    assert_eq!(select_adapter(""), Adapter::Passthrough);
    assert_eq!(select_adapter("Gateway-History"), Adapter::Passthrough);
    assert_eq!(select_adapter("gateway-history "), Adapter::Passthrough);
}

#[test]
fn an_adapter_normalizes_its_own_shape() {
    let gateway: Value =
        serde_json::from_str(r#"{"data":{"tags":{"AA:BB":{"temperature":21.5}}}}"#).unwrap();
    let list: Value = serde_json::from_str("[]").unwrap();
    let by_gateway = select_adapter("gateway-history").normalize(&gateway, 9).unwrap();
    assert_eq!(by_gateway.len(), 1);
    assert_eq!(by_gateway.get(0).unwrap().observed_at, Some(9));
    assert_eq!(
        select_adapter("passthrough").normalize(&gateway, 9),
        Err(FormatError::MalformedPayload)
    );
    assert_eq!(select_adapter("nonsense").normalize(&list, 9).unwrap().len(), 0);
    assert_eq!(
        select_adapter("gateway-history").normalize(&list, 9),
        Err(FormatError::MalformedPayload)
    );
}

#[test]
fn trend_glyphs() {
    assert_eq!(trend_arrow(1), "▴");
    assert_eq!(trend_arrow(-1), "▾");
    assert_eq!(trend_arrow(0), "▸");
    assert_eq!(trend_arrow(2), "▸");
    assert_eq!(trend_arrow(i8::MIN), "▸");
    assert_eq!(trend_arrow(i8::MAX), "▸");
    assert_eq!(trend_glyph(Trend::Rising), "▴");
    assert_eq!(trend_glyph(Trend::Falling), "▾");
    assert_eq!(trend_glyph(Trend::Flat), "▸");
    assert_eq!(Trend::from_code(1), Trend::Rising);
    assert_eq!(Trend::from_code(-1), Trend::Falling);
    assert_eq!(Trend::from_code(0), Trend::Flat);
}

#[test]
fn encodings_are_ordered_as_their_numbers() {
    let samples = [
        0.0,
        -0.0,
        1.0,
        -1.0,
        2.0,
        2.01,
        1.99,
        3.0,
        -273.15,
        1e-310,
        -1e-310,
        f64::MIN_POSITIVE,
        f64::MAX,
        f64::MIN,
        f64::INFINITY,
        f64::NEG_INFINITY,
        f64::NAN,
        -f64::NAN,
        21.5,
        40.0,
    ];
    for a in samples {
        for b in samples {
            assert_eq!(bits_le(a.to_bits(), b.to_bits()), a <= b, "{} <= {}", a, b);
        }
    }
    assert_eq!(f64::from_bits(ZERO), 0.0);
    assert_eq!(f64::from_bits(TWO), 2.0);
    assert_eq!(f64::from_bits(THREE), 3.0);
}

#[test]
fn a_metric_without_bounds_is_bounded_by_itself() {
    let metric = Metric::at(21.5f64.to_bits());
    assert_eq!(metric.min, metric.current);
    assert_eq!(metric.max, metric.current);
    assert_eq!(metric.trend, Trend::Flat);
    assert!(metric.is_bounded());
    assert!(!Metric::at(f64::NAN.to_bits()).is_bounded());
    let wide = Metric {
        current: 1.0f64.to_bits(),
        min: (-1.0f64).to_bits(),
        max: 1.0f64.to_bits(),
        trend: Trend::Flat,
    };
    assert!(wide.is_bounded());
    let off = Metric { current: 1.0f64.to_bits(), min: 1.5f64.to_bits(), max: 2.0f64.to_bits(), trend: Trend::Flat };
    assert!(!off.is_bounded());
}

#[test]
fn a_snapshot_needs_distinct_names_and_bounded_metrics() {
    assert!(Snapshot::new(vec![]).is_some());
    assert_eq!(Snapshot::new(vec![]).unwrap(), Snapshot::empty());
    let good = vec![reading("a", false, false), reading("b", false, false)];
    assert!(check_readings(&good));
    let snapshot = Snapshot::new(good.clone()).unwrap();
    assert_eq!(snapshot.len(), 2);
    assert_eq!(snapshot.readings(), &good);
    assert_eq!(snapshot.get(1), Some(&good[1]));
    assert_eq!(snapshot.get(2), None);

    let twice = vec![reading("a", false, false), reading("b", false, false), reading("a", true, false)];
    assert!(!check_readings(&twice));
    assert!(Snapshot::new(twice).is_none());

    let mut unbounded = reading("c", false, false);
    unbounded.temperature.max = 21.0f64.to_bits();
    assert!(Snapshot::new(vec![unbounded]).is_none());
}

#[test]
fn a_row_shows_what_the_reading_holds() {
    let row = display_row(&reading("Sauna", true, true), 1090);
    assert_eq!(row.name, "Sauna");
    assert_eq!(row.alert_label, Some("Unreachable"));
    assert_eq!(f64::from_bits(row.temperature), 21.5);
    assert_eq!(row.temperature_trend_glyph, "▴");
    assert_eq!(f64::from_bits(row.humidity), 40.0);
    assert_eq!(row.humidity_trend_glyph, "▸");
    assert_eq!(f64::from_bits(row.temperature_min), 20.0);
    assert_eq!(f64::from_bits(row.temperature_max), 23.0);
    assert_eq!(row.relative_time_text, "1 minutes ago");

    let row = display_row(&reading("Attic", true, false), 1000);
    assert_eq!(row.alert_label, Some("Battery low"));
    assert_eq!(row.relative_time_text, "0 seconds ago");
    let mut lost = reading("Cellar", false, false);
    lost.observed_at = None;
    let row = display_row(&lost, 1000);
    assert_eq!(row.alert_label, None);
    assert_eq!(row.relative_time_text, "unknown");
}

#[test]
fn rows_follow_the_snapshot_in_order() {
    let snapshot =
        Snapshot::new(vec![reading("b", false, false), reading("a", true, false)]).unwrap();
    let rows = display_rows(&snapshot, 1000 + 7200);
    assert_eq!(rows.len(), 2);
    assert_eq!(rows[0].name, "b");
    assert_eq!(rows[1].name, "a");
    assert_eq!(rows[0].alert_label, None);
    assert_eq!(rows[1].alert_label, Some("Battery low"));
    assert_eq!(rows[0].relative_time_text, "2 hours ago");
    assert!(display_rows(&Snapshot::empty(), 0).is_empty());
}
