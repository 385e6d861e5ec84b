//! Direction of change of a metric, and the glyph that shows it.

use vstd::prelude::*;

verus! {

/// Direction of a metric since its previous observation.
#[derive(Clone, Copy, Debug, PartialEq, Eq, Structural)]
pub enum Trend {
    Rising,
    Falling,
    Flat,
}

impl Trend {
    /// The trend that an upstream trend code stands for: `1` rises, `-1`
    /// falls, every other code is flat.
    pub open spec fn of_code(code: i8) -> Trend {
        if code == 1 {
            Trend::Rising
        } else if code == -1 {
            Trend::Falling
        } else {
            Trend::Flat
        }
    }

    /// The glyph shown next to a value with this trend.
    pub open spec fn glyph(self) -> Seq<char> {
        match self {
            Trend::Rising => "▴"@,
            Trend::Falling => "▾"@,
            Trend::Flat => "▸"@,
        }
    }

    /// Decodes an upstream trend code.
    pub fn from_code(code: i8) -> (trend: Trend)
        ensures
            trend == Trend::of_code(code),
    {
        if code == 1 {
            Trend::Rising
        } else if code == -1 {
            Trend::Falling
        } else {
            Trend::Flat
        }
    }
}

/// The glyph for a trend: up for rising, down for falling, sideways for flat.
pub fn trend_glyph(trend: Trend) -> (glyph: &'static str)
    ensures
        glyph@ == trend.glyph(),
{
    match trend {
        Trend::Rising => "▴",
        Trend::Falling => "▾",
        Trend::Flat => "▸",
    }
}

/// The glyph for an upstream trend code; unknown codes show as flat.
pub fn trend_arrow(trend: i8) -> (glyph: &'static str)
    ensures
        glyph@ == Trend::of_code(trend).glyph(),
{
    trend_glyph(Trend::from_code(trend))
}

} // verus!
