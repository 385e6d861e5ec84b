//! The passthrough adapter.
//!
//! The payload is an array of devices that already have the canonical shape:
//! each is an object with the members `id`, `tag_id`, `datetime`,
//! `temperature`, `humidity`, `battery_low`, `unreachable` and `tag_name`,
//! and each of the two metrics is an object with `current`, `min`, `max` and
//! `trend`. Every member is required. A payload with a missing or ill-typed
//! member is refused as a whole, and so is one whose readings cannot form a
//! snapshot: two devices of one name, or bounds that do not enclose the
//! value.

use crate::clock::{parse_seconds, rfc3339_seconds};
use crate::error::FormatError;
use crate::fields::{
    flag_at, flag_member, integer_at, integer_member, number_at, number_member, text_at,
    text_member,
};
use crate::json::{elements, json_elements, json_member, member};
use crate::model::{views, well_formed, Metric, Reading, ReadingView, Snapshot};
use crate::trend::Trend;
use serde_json::Value;
use vstd::prelude::*;

verus! {

/// Whether a member is a device identifier: an integer of 32 bits without
/// sign.
pub open spec fn is_identifier(found: Option<i64>) -> bool {
    found is Some && 0 <= found.unwrap() <= u32::MAX
}

/// The metric that four raw members stand for: all of them are required, and
/// the trend code is an integer of 8 bits.
pub open spec fn metric_of_parts(
    current: Option<u64>,
    min: Option<u64>,
    max: Option<u64>,
    trend: Option<i64>,
) -> Option<Metric> {
    if current is Some && min is Some && max is Some && trend is Some && i8::MIN <= trend.unwrap()
        <= i8::MAX {
        Some(
            Metric {
                current: current.unwrap(),
                min: min.unwrap(),
                max: max.unwrap(),
                trend: Trend::of_code(trend.unwrap() as i8),
            },
        )
    } else {
        None
    }
}

/// The metric that a document stands for.
pub open spec fn metric_of(doc: Value) -> Option<Metric> {
    metric_of_parts(
        number_at(doc, "current"@),
        number_at(doc, "min"@),
        number_at(doc, "max"@),
        integer_at(doc, "trend"@),
    )
}

/// The metric under a key of a document, where there is one.
pub open spec fn metric_at(doc: Value, key: Seq<char>) -> Option<Metric> {
    match json_member(doc, key) {
        Some(value) => metric_of(value),
        None => None,
    }
}

/// The reading that one device of the payload stands for; `None` where a
/// member is missing or of the wrong type. A `datetime` that is text but no
/// date-time leaves the reading without a known instant.
pub open spec fn passthrough_entry(doc: Value) -> Option<ReadingView> {
    if is_identifier(integer_at(doc, "id"@)) && is_identifier(integer_at(doc, "tag_id"@))
        && text_at(doc, "datetime"@) is Some && metric_at(doc, "temperature"@) is Some
        && metric_at(doc, "humidity"@) is Some && flag_at(doc, "battery_low"@) is Some
        && flag_at(doc, "unreachable"@) is Some && text_at(doc, "tag_name"@) is Some {
        Some(
            ReadingView {
                name: text_at(doc, "tag_name"@).unwrap(),
                observed_at: rfc3339_seconds(text_at(doc, "datetime"@).unwrap()),
                temperature: metric_at(doc, "temperature"@).unwrap(),
                humidity: metric_at(doc, "humidity"@).unwrap(),
                battery_low: flag_at(doc, "battery_low"@).unwrap(),
                unreachable: flag_at(doc, "unreachable"@).unwrap(),
            },
        )
    } else {
        None
    }
}

/// Every device of the payload stands for a reading.
pub open spec fn all_decode(devices: Seq<Value>) -> bool {
    forall|i: int| 0 <= i < devices.len() ==> (#[trigger] passthrough_entry(devices[i])) is Some
}

/// The readings of the devices, in their order.
pub open spec fn passthrough_readings(devices: Seq<Value>) -> Seq<ReadingView> {
    Seq::new(devices.len(), |i: int| passthrough_entry(devices[i]).unwrap())
}

/// What a payload normalises to: the readings of its devices, or
/// `MalformedPayload` where it is no array, where a device does not decode,
/// or where the readings are not well formed.
pub open spec fn passthrough_snapshot(payload: Value) -> Result<Seq<ReadingView>, FormatError> {
    match json_elements(payload) {
        Some(devices) => if all_decode(devices) && well_formed(passthrough_readings(devices)) {
            Ok(passthrough_readings(devices))
        } else {
            Err(FormatError::MalformedPayload)
        },
        None => Err(FormatError::MalformedPayload),
    }
}

/// Builds a metric of its four raw members, if none is missing and the trend
/// code fits.
pub fn metric_from_parts(
    current: Option<u64>,
    min: Option<u64>,
    max: Option<u64>,
    trend: Option<i64>,
) -> (metric: Option<Metric>)
    ensures
        metric == metric_of_parts(current, min, max, trend),
{
    match (current, min, max, trend) {
        (Some(current), Some(min), Some(max), Some(code)) => {
            if -128 <= code && code <= 127 {
                Some(Metric { current, min, max, trend: Trend::from_code(code as i8) })
            } else {
                None
            }
        },
        _ => None,
    }
}

/// Whether a raw member is a device identifier.
pub fn identifier_fits(found: Option<i64>) -> (fits: bool)
    ensures
        fits == is_identifier(found),
{
    match found {
        Some(number) => 0 <= number && number <= 4294967295,
        None => false,
    }
}

/// Reads the metric under a key.
fn metric_member(doc: &Value, key: &str) -> (metric: Option<Metric>)
    ensures
        metric == metric_at(*doc, key@),
{
    match member(doc, key) {
        Some(value) => metric_from_parts(
            number_member(value, "current"),
            number_member(value, "min"),
            number_member(value, "max"),
            integer_member(value, "trend"),
        ),
        None => None,
    }
}

/// Decodes one device of the payload.
pub fn decode_passthrough_entry(doc: &Value) -> (result: Result<Reading, FormatError>)
    ensures
        match passthrough_entry(*doc) {
            Some(reading) => result is Ok && result.unwrap()@ == reading,
            None => result == Err::<Reading, FormatError>(FormatError::MalformedPayload),
        },
{
    if !identifier_fits(integer_member(doc, "id")) || !identifier_fits(
        integer_member(doc, "tag_id"),
    ) {
        return Err(FormatError::MalformedPayload);
    }
    let datetime = match text_member(doc, "datetime") {
        Some(datetime) => datetime,
        None => {
            return Err(FormatError::MalformedPayload);
        },
    };
    let temperature = match metric_member(doc, "temperature") {
        Some(metric) => metric,
        None => {
            return Err(FormatError::MalformedPayload);
        },
    };
    let humidity = match metric_member(doc, "humidity") {
        Some(metric) => metric,
        None => {
            return Err(FormatError::MalformedPayload);
        },
    };
    let battery_low = match flag_member(doc, "battery_low") {
        Some(truth) => truth,
        None => {
            return Err(FormatError::MalformedPayload);
        },
    };
    let unreachable = match flag_member(doc, "unreachable") {
        Some(truth) => truth,
        None => {
            return Err(FormatError::MalformedPayload);
        },
    };
    let tag_name = match text_member(doc, "tag_name") {
        Some(name) => name,
        None => {
            return Err(FormatError::MalformedPayload);
        },
    };
    Ok(
        Reading {
            name: tag_name.to_owned(),
            observed_at: parse_seconds(datetime),
            temperature,
            humidity,
            battery_low,
            unreachable,
        },
    )
}

/// Normalises a passthrough payload.
pub fn parse_custom_ruuvi_api_format(value: &Value) -> (result: Result<Snapshot, FormatError>)
    ensures
        match passthrough_snapshot(*value) {
            Ok(readings) => result is Ok && result.unwrap()@ == readings,
            Err(error) => result == Err::<Snapshot, FormatError>(error),
        },
        result is Ok ==> well_formed(result.unwrap()@),
{
    let devices = match elements(value) {
        Some(devices) => devices,
        None => {
            return Err(FormatError::MalformedPayload);
        },
    };
    let mut readings: Vec<Reading> = Vec::new();
    let mut i: usize = 0;
    while i < devices.len()
        invariant
            i <= devices.len(),
            readings.len() == i,
            json_elements(*value) == Some(devices@),
            forall|k: int| 0 <= k < i ==> (#[trigger] passthrough_entry(devices@[k])) is Some,
            forall|k: int|
                0 <= k < i ==> (#[trigger] readings@[k])@ == passthrough_entry(devices@[k]).unwrap(),
        decreases devices.len() - i,
    {
        match decode_passthrough_entry(&devices[i]) {
            Ok(reading) => {
                readings.push(reading);
            },
            Err(_) => {
                assert(passthrough_entry(devices@[i as int]) is None);
                return Err(FormatError::MalformedPayload);
            },
        }
        i += 1;
    }
    assert(all_decode(devices@));
    assert(views(readings@) =~= passthrough_readings(devices@));
    match Snapshot::new(readings) {
        Some(snapshot) => Ok(snapshot),
        None => Err(FormatError::MalformedPayload),
    }
}

} // verus!
