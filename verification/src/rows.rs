//! What the presentation sink is handed on every tick.

use crate::alert::{alert_of, classify_alert};
use crate::clock::{relative_text, relative_time};
use crate::model::{views, Reading, ReadingView, Snapshot};
use crate::trend::trend_glyph;
use vstd::prelude::*;

verus! {

/// One device as it is displayed. The measured quantities are handed on as
/// binary64 encodings: the sink writes them out.
#[derive(Clone, Debug, PartialEq, Eq)]
pub struct DisplayRow {
    pub name: String,
    pub alert_label: Option<&'static str>,
    pub temperature: u64,
    pub temperature_trend_glyph: &'static str,
    pub humidity: u64,
    pub humidity_trend_glyph: &'static str,
    pub temperature_min: u64,
    pub temperature_max: u64,
    pub relative_time_text: String,
}

/// What a row holds, as mathematics.
pub ghost struct RowView {
    pub name: Seq<char>,
    pub alert_label: Option<Seq<char>>,
    pub temperature: u64,
    pub temperature_trend_glyph: Seq<char>,
    pub humidity: u64,
    pub humidity_trend_glyph: Seq<char>,
    pub temperature_min: u64,
    pub temperature_max: u64,
    pub relative_time_text: Seq<char>,
}

impl View for DisplayRow {
    type V = RowView;

    open spec fn view(&self) -> RowView {
        RowView {
            name: self.name@,
            alert_label: match self.alert_label {
                Some(label) => Some(label@),
                None => None,
            },
            temperature: self.temperature,
            temperature_trend_glyph: self.temperature_trend_glyph@,
            humidity: self.humidity,
            humidity_trend_glyph: self.humidity_trend_glyph@,
            temperature_min: self.temperature_min,
            temperature_max: self.temperature_max,
            relative_time_text: self.relative_time_text@,
        }
    }
}

/// The row of a reading seen at `now`.
pub open spec fn row_of(reading: ReadingView, now: i64) -> RowView {
    RowView {
        name: reading.name,
        alert_label: match alert_of(reading) {
            Some(alert) => Some(alert.label()),
            None => None,
        },
        temperature: reading.temperature.current,
        temperature_trend_glyph: reading.temperature.trend.glyph(),
        humidity: reading.humidity.current,
        humidity_trend_glyph: reading.humidity.trend.glyph(),
        temperature_min: reading.temperature.min,
        temperature_max: reading.temperature.max,
        relative_time_text: relative_text(reading.observed_at, now),
    }
}

/// The rows of a snapshot seen at `now`: one for each reading, in order.
pub open spec fn rows_of(readings: Seq<ReadingView>, now: i64) -> Seq<RowView> {
    readings.map_values(|reading: ReadingView| row_of(reading, now))
}

/// What a list of rows holds, as mathematics.
pub open spec fn row_views(rows: Seq<DisplayRow>) -> Seq<RowView> {
    rows.map_values(|row: DisplayRow| row@)
}

/// Derives the row of a reading.
pub fn display_row(reading: &Reading, now: i64) -> (row: DisplayRow)
    ensures
        row@ == row_of(reading@, now),
{
    let alert_label: Option<&'static str> = match classify_alert(reading) {
        Some(alert) => Some(alert.label_text()),
        None => None,
    };
    DisplayRow {
        name: reading.name.clone(),
        alert_label,
        temperature: reading.temperature.current,
        temperature_trend_glyph: trend_glyph(reading.temperature.trend),
        humidity: reading.humidity.current,
        humidity_trend_glyph: trend_glyph(reading.humidity.trend),
        temperature_min: reading.temperature.min,
        temperature_max: reading.temperature.max,
        relative_time_text: relative_time(reading.observed_at, now),
    }
}

/// Derives the rows of a snapshot.
pub fn display_rows(snapshot: &Snapshot, now: i64) -> (rows: Vec<DisplayRow>)
    ensures
        row_views(rows@) == rows_of(snapshot@, now),
{
    let readings = snapshot.readings();
    let mut rows: Vec<DisplayRow> = Vec::new();
    let mut i: usize = 0;
    while i < readings.len()
        invariant
            i <= readings.len(),
            rows.len() == i,
            forall|k: int| 0 <= k < i ==> (#[trigger] rows@[k])@ == row_of(readings@[k]@, now),
        decreases readings.len() - i,
    {
        rows.push(display_row(&readings[i], now));
        i += 1;
    }
    assert(row_views(rows@) =~= rows_of(views(readings@), now));
    rows
}

} // verus!
