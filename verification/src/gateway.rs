//! The gateway-history adapter.
//!
//! The payload holds the devices under `data.tags`, an object keyed by
//! hardware identifier. Each entry carries raw `temperature`, `humidity`,
//! `voltage` and `timestamp` members and neither bounds nor a trend.
//!
//! An entry is corrupt, and left out of the snapshot, when it is not an
//! object or when its timestamp lies outside the instants that can be
//! represented. A member that is absent or not a number takes its default.

use crate::clock::{is_representable, representable};
use crate::error::FormatError;
use crate::fields::{integer_at, integer_member, number_at, number_member};
use crate::ieee::{bits_le, is_nan, le, rank, THREE, TWO, ZERO};
use crate::json::{
    entries, entries_match, is_object, json_entries, json_member, keys_distinct, member,
};
use crate::model::{
    all_bounded, names_distinct, views, well_formed, Metric, Reading, ReadingView, Snapshot,
};
use crate::trend::Trend;
use serde_json::Value;
use vstd::prelude::*;

verus! {

/// The number that a member stands for: its own value, or the default where
/// it is missing.
pub open spec fn or_default(found: Option<u64>, default: u64) -> u64 {
    match found {
        Some(bits) => bits,
        None => default,
    }
}

/// When an entry was observed: at its own timestamp, or at `now` where it
/// has none.
pub open spec fn observed_at(timestamp: Option<i64>, now: i64) -> i64 {
    match timestamp {
        Some(at) => at,
        None => now,
    }
}

/// The battery is low at two volts and below. A missing voltage counts as
/// three volts.
pub open spec fn battery_low(voltage: Option<u64>) -> bool {
    le(or_default(voltage, THREE), TWO)
}

/// The reading that raw members normalise to: missing temperature and
/// humidity count as zero, both metrics have their value as their bounds and
/// a flat trend, and the device is taken to be reachable.
pub open spec fn gateway_view(
    name: Seq<char>,
    temperature: Option<u64>,
    humidity: Option<u64>,
    voltage: Option<u64>,
    at: i64,
) -> ReadingView {
    ReadingView {
        name,
        observed_at: Some(at),
        temperature: Metric::spot(or_default(temperature, ZERO)),
        humidity: Metric::spot(or_default(humidity, ZERO)),
        battery_low: battery_low(voltage),
        unreachable: false,
    }
}

/// The reading of one entry of the payload; `None` for a corrupt entry.
pub open spec fn gateway_entry(key: Seq<char>, entry: Value, now: i64) -> Option<ReadingView> {
    let at = observed_at(integer_at(entry, "timestamp"@), now);
    if json_entries(entry) is Some && representable(at) {
        Some(
            gateway_view(
                key,
                number_at(entry, "temperature"@),
                number_at(entry, "humidity"@),
                number_at(entry, "voltage"@),
                at,
            ),
        )
    } else {
        None
    }
}

/// The readings of the entries, in their order, corrupt entries left out.
pub open spec fn gateway_readings(entries: Seq<(Seq<char>, Value)>, now: i64) -> Seq<ReadingView>
    decreases entries.len(),
{
    if entries.len() == 0 {
        Seq::empty()
    } else {
        let before = gateway_readings(entries.drop_last(), now);
        match gateway_entry(entries.last().0, entries.last().1, now) {
            Some(reading) => before.push(reading),
            None => before,
        }
    }
}

/// The per-device entries of a payload: the entries of the object at
/// `data.tags`, where there is one.
pub open spec fn gateway_tags(payload: Value) -> Option<Seq<(Seq<char>, Value)>> {
    match json_member(payload, "data"@) {
        Some(data) => match json_member(data, "tags"@) {
            Some(tags) => json_entries(tags),
            None => None,
        },
        None => None,
    }
}

/// What a payload normalises to: the readings of its entries, or
/// `MalformedPayload` where `data.tags` is absent or not an object.
pub open spec fn gateway_snapshot(payload: Value, now: i64) -> Result<Seq<ReadingView>, FormatError> {
    match gateway_tags(payload) {
        Some(entries) => Ok(gateway_readings(entries, now)),
        None => Err(FormatError::MalformedPayload),
    }
}

/// Chooses the timestamp of an entry.
pub fn effective_timestamp(timestamp: Option<i64>, now: i64) -> (at: i64)
    ensures
        at == observed_at(timestamp, now),
{
    match timestamp {
        Some(at) => at,
        None => now,
    }
}

/// Normalises the raw members of one entry.
pub fn gateway_reading(
    name: String,
    temperature: Option<u64>,
    humidity: Option<u64>,
    voltage: Option<u64>,
    at: i64,
) -> (reading: Reading)
    ensures
        reading@ == gateway_view(name@, temperature, humidity, voltage, at),
{
    let volts: u64 = match voltage {
        Some(bits) => bits,
        None => THREE,
    };
    let degrees: u64 = match temperature {
        Some(bits) => bits,
        None => ZERO,
    };
    let percent: u64 = match humidity {
        Some(bits) => bits,
        None => ZERO,
    };
    Reading {
        name,
        observed_at: Some(at),
        temperature: Metric::at(degrees),
        humidity: Metric::at(percent),
        battery_low: bits_le(volts, TWO),
        unreachable: false,
    }
}

/// Normalises one entry of the payload, or reports it as corrupt.
pub fn decode_gateway_entry(key: &String, entry: &Value, now: i64) -> (result: Result<
    Reading,
    FormatError,
>)
    ensures
        match gateway_entry(key@, *entry, now) {
            Some(reading) => result is Ok && result.unwrap()@ == reading && reading.bounded(),
            None => result == Err::<Reading, FormatError>(FormatError::PerEntryCorruption),
        },
{
    if !is_object(entry) {
        return Err(FormatError::PerEntryCorruption);
    }
    let at = effective_timestamp(integer_member(entry, "timestamp"), now);
    if !is_representable(at) {
        return Err(FormatError::PerEntryCorruption);
    }
    let temperature = number_member(entry, "temperature");
    let humidity = number_member(entry, "humidity");
    let voltage = number_member(entry, "voltage");
    Ok(gateway_reading(key.clone(), temperature, humidity, voltage, at))
}

/// Every reading comes from an entry and bears its key.
pub proof fn lemma_names_are_keys(entries: Seq<(Seq<char>, Value)>, now: i64)
    ensures
        forall|j: int|
            0 <= j < gateway_readings(entries, now).len() ==> exists|k: int|
                0 <= k < entries.len() && entries[k].0 == (#[trigger] gateway_readings(
                    entries,
                    now,
                )[j]).name,
    decreases entries.len(),
{
    if entries.len() > 0 {
        let before = gateway_readings(entries.drop_last(), now);
        lemma_names_are_keys(entries.drop_last(), now);
        assert forall|j: int| 0 <= j < gateway_readings(entries, now).len() implies exists|k: int|
            0 <= k < entries.len() && entries[k].0 == (#[trigger] gateway_readings(
                entries,
                now,
            )[j]).name by {
            if j < before.len() {
                let k = choose|k: int|
                    0 <= k < entries.drop_last().len() && entries.drop_last()[k].0
                        == before[j].name;
                assert(entries[k].0 == gateway_readings(entries, now)[j].name);
            } else {
                assert(entries[entries.len() - 1].0 == gateway_readings(entries, now)[j].name);
            }
        }
    }
}

/// Entries with distinct keys give readings with distinct names.
pub proof fn lemma_names_distinct(entries: Seq<(Seq<char>, Value)>, now: i64)
    requires
        keys_distinct(entries),
    ensures
        names_distinct(gateway_readings(entries, now)),
    decreases entries.len(),
{
    if entries.len() > 0 {
        let shorter = entries.drop_last();
        let before = gateway_readings(shorter, now);
        let all = gateway_readings(entries, now);
        assert(keys_distinct(shorter)) by {
            assert forall|i: int, j: int| 0 <= i < j < shorter.len() implies (
            #[trigger] shorter[i]).0 != (#[trigger] shorter[j]).0 by {
                assert(entries[i].0 != entries[j].0);
            }
        }
        lemma_names_distinct(shorter, now);
        lemma_names_are_keys(shorter, now);
        assert forall|i: int, j: int| 0 <= i < j < all.len() implies (#[trigger] all[i]).name != (
        #[trigger] all[j]).name by {
            if j < before.len() {
                assert(before[i].name != before[j].name);
            } else {
                let k = choose|k: int| 0 <= k < shorter.len() && shorter[k].0 == before[i].name;
                assert(entries[k].0 != entries[entries.len() - 1].0);
            }
        }
    }
}

/// No gateway reading has bounds or a trend of its own: for both metrics the
/// bounds equal the value and the trend is flat.
pub proof fn lemma_readings_are_spot(entries: Seq<(Seq<char>, Value)>, now: i64)
    ensures
        forall|j: int|
            0 <= j < gateway_readings(entries, now).len() ==> {
                let reading = #[trigger] gateway_readings(entries, now)[j];
                &&& reading.temperature.min == reading.temperature.current
                &&& reading.temperature.max == reading.temperature.current
                &&& reading.temperature.trend == Trend::Flat
                &&& reading.humidity.min == reading.humidity.current
                &&& reading.humidity.max == reading.humidity.current
                &&& reading.humidity.trend == Trend::Flat
                &&& !reading.unreachable
            },
    decreases entries.len(),
{
    if entries.len() > 0 {
        lemma_readings_are_spot(entries.drop_last(), now);
    }
}

/// The battery is low at exactly two volts and at every voltage below, not
/// low at any voltage above, and not low where no voltage is reported.
pub proof fn lemma_battery_threshold(voltage: u64)
    ensures
        battery_low(Some(TWO)),
        !battery_low(None),
        !is_nan(voltage) ==> (battery_low(Some(voltage)) <==> rank(voltage) <= rank(TWO)),
        is_nan(voltage) ==> !battery_low(Some(voltage)),
{
}

/// Normalises a gateway-history payload. `now` stands in for the timestamp
/// of an entry that has none.
pub fn parse_ruuvi_gateway_format(value: &Value, now: i64) -> (result: Result<Snapshot, FormatError>)
    ensures
        match gateway_snapshot(*value, now) {
            Ok(readings) => result is Ok && result.unwrap()@ == readings,
            Err(error) => result == Err::<Snapshot, FormatError>(error),
        },
        result is Ok ==> well_formed(result.unwrap()@),
        result is Ok ==> forall|j: int|
            0 <= j < result.unwrap()@.len() ==> {
                let reading = #[trigger] result.unwrap()@[j];
                &&& reading.temperature == Metric::spot(reading.temperature.current)
                &&& reading.humidity == Metric::spot(reading.humidity.current)
            },
{
    let data = match member(value, "data") {
        Some(data) => data,
        None => {
            return Err(FormatError::MalformedPayload);
        },
    };
    let tags = match member(data, "tags") {
        Some(tags) => tags,
        None => {
            return Err(FormatError::MalformedPayload);
        },
    };
    let found = match entries(tags) {
        Some(found) => found,
        None => {
            return Err(FormatError::MalformedPayload);
        },
    };
    let ghost named = json_entries(*tags).unwrap();
    let mut readings: Vec<Reading> = Vec::new();
    let mut i: usize = 0;
    assert(views(readings@) =~= gateway_readings(named.take(0), now));
    while i < found.len()
        invariant
            i <= found.len(),
            entries_match(found@, named),
            views(readings@) == gateway_readings(named.take(i as int), now),
            all_bounded(views(readings@)),
        decreases found.len() - i,
    {
        let key: &String = found[i].0;
        let entry: &Value = found[i].1;
        let ghost before = views(readings@);
        proof {
            assert(named.take(i + 1).drop_last() =~= named.take(i as int));
            assert(named.take(i + 1).last() == named[i as int]);
        }
        match decode_gateway_entry(key, entry, now) {
            Ok(reading) => {
                readings.push(reading);
                proof {
                    assert(views(readings@) =~= before.push(reading@));
                    assert forall|a: int| 0 <= a < views(readings@).len() implies (
                    #[trigger] views(readings@)[a]).bounded() by {
                        if a < before.len() {
                            assert(before[a].bounded());
                        }
                    }
                }
            },
            Err(_) => {},
        }
        i += 1;
    }
    proof {
        assert(named.take(i as int) =~= named);
        lemma_names_distinct(named, now);
        lemma_readings_are_spot(named, now);
    }
    Ok(Snapshot::of_valid(readings))
}

} // verus!
