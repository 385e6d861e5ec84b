//! The alert shown for a reading.

use crate::model::{Reading, ReadingView};
use vstd::prelude::*;

verus! {

/// What is wrong with a device.
#[derive(Clone, Copy, Debug, PartialEq, Eq, Structural)]
pub enum Alert {
    BatteryLow,
    Unreachable,
}

/// The one alert of a reading, if it has any: a device that is unreachable
/// is reported as such, whatever its battery; else a low battery is
/// reported.
pub open spec fn alert_of(reading: ReadingView) -> Option<Alert> {
    if reading.unreachable {
        Some(Alert::Unreachable)
    } else if reading.battery_low {
        Some(Alert::BatteryLow)
    } else {
        None
    }
}

impl Alert {
    /// The words shown for the alert.
    pub open spec fn label(self) -> Seq<char> {
        match self {
            Alert::BatteryLow => "Battery low"@,
            Alert::Unreachable => "Unreachable"@,
        }
    }

    /// The words shown for the alert.
    pub fn label_text(self) -> (text: &'static str)
        ensures
            text@ == self.label(),
    {
        match self {
            Alert::BatteryLow => "Battery low",
            Alert::Unreachable => "Unreachable",
        }
    }
}

/// Classifies a reading: at most one alert, and unreachable before battery.
pub fn classify_alert(reading: &Reading) -> (alert: Option<Alert>)
    ensures
        alert == alert_of(reading@),
{
    if reading.unreachable {
        Some(Alert::Unreachable)
    } else if reading.battery_low {
        Some(Alert::BatteryLow)
    } else {
        None
    }
}

/// An unreachable device is reported as unreachable, also where its battery
/// is low; a battery alert means that the device can be reached.
pub proof fn lemma_unreachable_dominates(reading: ReadingView)
    ensures
        reading.unreachable ==> alert_of(reading) == Some(Alert::Unreachable),
        alert_of(reading) == Some(Alert::BatteryLow) <==> reading.battery_low
            && !reading.unreachable,
        alert_of(reading) is None <==> !reading.battery_low && !reading.unreachable,
{
}

} // verus!
