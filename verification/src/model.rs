//! The canonical model: metrics, readings and snapshots.

use crate::ieee::le;
use crate::ieee::bits_le;
use crate::trend::Trend;
use vstd::prelude::*;

verus! {

/// The state of one measured quantity. The three values are binary64
/// encodings.
#[derive(Clone, Copy, Debug, PartialEq, Eq, Structural)]
pub struct Metric {
    pub current: u64,
    pub min: u64,
    pub max: u64,
    pub trend: Trend,
}

impl Metric {
    /// The observed bounds enclose the latest value.
    pub open spec fn bounded(self) -> bool {
        le(self.min, self.current) && le(self.current, self.max)
    }

    /// A metric of a source that reports neither bounds nor a trend.
    pub open spec fn spot(value: u64) -> Metric {
        Metric { current: value, min: value, max: value, trend: Trend::Flat }
    }

    /// A metric whose bounds both equal its value and whose trend is flat.
    pub fn at(value: u64) -> (metric: Metric)
        ensures
            metric == Metric::spot(value),
    {
        Metric { current: value, min: value, max: value, trend: Trend::Flat }
    }

    /// Whether the observed bounds enclose the latest value.
    pub fn is_bounded(&self) -> (holds: bool)
        ensures
            holds == self.bounded(),
    {
        bits_le(self.min, self.current) && bits_le(self.current, self.max)
    }
}

/// The normalised state of one sensor device.
#[derive(Clone, Debug, PartialEq, Eq)]
pub struct Reading {
    /// Display label.
    pub name: String,
    /// When the source produced the reading, in seconds since the Unix epoch;
    /// `None` where the source's date-time could not be read.
    pub observed_at: Option<i64>,
    pub temperature: Metric,
    pub humidity: Metric,
    pub battery_low: bool,
    pub unreachable: bool,
}

/// What a reading holds, as mathematics.
pub ghost struct ReadingView {
    pub name: Seq<char>,
    pub observed_at: Option<i64>,
    pub temperature: Metric,
    pub humidity: Metric,
    pub battery_low: bool,
    pub unreachable: bool,
}

impl View for Reading {
    type V = ReadingView;

    open spec fn view(&self) -> ReadingView {
        ReadingView {
            name: self.name@,
            observed_at: self.observed_at,
            temperature: self.temperature,
            humidity: self.humidity,
            battery_low: self.battery_low,
            unreachable: self.unreachable,
        }
    }
}

impl ReadingView {
    /// Both metrics are bounded.
    pub open spec fn bounded(self) -> bool {
        self.temperature.bounded() && self.humidity.bounded()
    }
}

/// What a sequence of readings holds, as mathematics.
pub open spec fn views(readings: Seq<Reading>) -> Seq<ReadingView> {
    readings.map_values(|r: Reading| r@)
}

/// No two readings bear the same name.
pub open spec fn names_distinct(readings: Seq<ReadingView>) -> bool {
    forall|i: int, j: int|
        0 <= i < j < readings.len() ==> (#[trigger] readings[i]).name != (
        #[trigger] readings[j]).name
}

/// Every reading's metrics are bounded.
pub open spec fn all_bounded(readings: Seq<ReadingView>) -> bool {
    forall|i: int| 0 <= i < readings.len() ==> (#[trigger] readings[i]).bounded()
}

/// What holds of the readings of every snapshot.
pub open spec fn well_formed(readings: Seq<ReadingView>) -> bool {
    names_distinct(readings) && all_bounded(readings)
}

/// Whether a name occurs among the first `upto` readings.
fn name_taken(readings: &Vec<Reading>, upto: usize, name: &String) -> (taken: bool)
    requires
        upto <= readings.len(),
    ensures
        taken == exists|k: int| 0 <= k < upto && (#[trigger] readings@[k]).name@ == name@,
{
    let mut k: usize = 0;
    while k < upto
        invariant
            k <= upto <= readings.len(),
            forall|m: int| 0 <= m < k ==> (#[trigger] readings@[m]).name@ != name@,
        decreases upto - k,
    {
        if readings[k].name == *name {
            return true;
        }
        k += 1;
    }
    false
}

/// Whether a list of readings may form a snapshot.
pub fn check_readings(readings: &Vec<Reading>) -> (valid: bool)
    ensures
        valid == well_formed(views(readings@)),
{
    let ghost all = views(readings@);
    let mut i: usize = 0;
    while i < readings.len()
        invariant
            i <= readings.len(),
            all == views(readings@),
            well_formed(all.take(i as int)),
        decreases readings.len() - i,
    {
        let reading = &readings[i];
        let ghost next = all.take(i + 1);
        if !reading.temperature.is_bounded() || !reading.humidity.is_bounded() {
            assert(!all[i as int].bounded());
            return false;
        }
        if name_taken(readings, i, &reading.name) {
            let ghost k = choose|k: int| 0 <= k < i && (#[trigger] readings@[k]).name@ == reading.name@;
            assert(all[k].name == all[i as int].name);
            return false;
        }
        assert(well_formed(next)) by {
            assert forall|a: int, b: int| 0 <= a < b < next.len() implies (#[trigger] next[a]).name != (
            #[trigger] next[b]).name by {
                if b < i {
                    assert(all.take(i as int)[a].name != all.take(i as int)[b].name);
                } else {
                    assert(readings@[a].name@ != reading.name@);
                }
            }
            assert forall|a: int| 0 <= a < next.len() implies (#[trigger] next[a]).bounded() by {
                if a < i {
                    assert(all.take(i as int)[a].bounded());
                }
            }
        }
        i += 1;
    }
    assert(all.take(i as int) =~= all);
    true
}

/// The readings of one successful poll, in the order the source gave them.
/// It is made whole and never changed afterwards.
#[derive(Debug, PartialEq, Eq)]
pub struct Snapshot {
    readings: Vec<Reading>,
}

impl View for Snapshot {
    type V = Seq<ReadingView>;

    closed spec fn view(&self) -> Seq<ReadingView> {
        views(self.readings@)
    }
}

impl Snapshot {
    #[verifier::type_invariant]
    closed spec fn valid(self) -> bool {
        well_formed(views(self.readings@))
    }

    /// The snapshot without readings.
    pub fn empty() -> (snapshot: Snapshot)
        ensures
            snapshot@ == Seq::<ReadingView>::empty(),
    {
        let snapshot = Snapshot { readings: Vec::new() };
        assert(snapshot@ =~= Seq::<ReadingView>::empty());
        snapshot
    }

    /// Forms a snapshot of the readings, if their names are distinct and
    /// their metrics bounded.
    pub fn new(readings: Vec<Reading>) -> (snapshot: Option<Snapshot>)
        ensures
            snapshot is Some <==> well_formed(views(readings@)),
            snapshot is Some ==> snapshot.unwrap()@ == views(readings@),
    {
        if check_readings(&readings) {
            Some(Snapshot { readings })
        } else {
            None
        }
    }

    /// Forms a snapshot of readings known to be well formed.
    pub(crate) fn of_valid(readings: Vec<Reading>) -> (snapshot: Snapshot)
        requires
            well_formed(views(readings@)),
        ensures
            snapshot@ == views(readings@),
    {
        Snapshot { readings }
    }

    /// The number of readings.
    pub fn len(&self) -> (count: usize)
        ensures
            count == self@.len(),
    {
        self.readings.len()
    }

    /// The reading at a position.
    pub fn get(&self, index: usize) -> (reading: Option<&Reading>)
        ensures
            index < self@.len() ==> reading is Some && reading.unwrap()@ == self@[index as int],
            index >= self@.len() ==> reading is None,
    {
        if index < self.readings.len() {
            Some(&self.readings[index])
        } else {
            None
        }
    }

    /// The readings, in order.
    pub fn readings(&self) -> (readings: &Vec<Reading>)
        ensures
            views(readings@) == self@,
            well_formed(self@),
    {
        proof {
            use_type_invariant(self);
        }
        &self.readings
    }
}

} // verus!
