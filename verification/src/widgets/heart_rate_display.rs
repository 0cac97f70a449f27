//! The layout of the heart-rate view: a status table on top, and below it
//! the charts that the settings switch on.

use vstd::prelude::*;

verus! {

/// How many heart-rate readings a chart holds at most.
pub const CHART_BPM_MAX_ELEMENTS: usize = 120;

/// How many intervals a chart holds at most.
pub const CHART_RR_MAX_ELEMENTS: usize = 120;

/// What a chart plots.
#[derive(Clone, Copy, Debug, PartialEq, Eq, Structural)]
pub enum ChartType {
    /// Heart rate and intervals in one chart.
    Combined,
    /// The heart rate over time.
    Bpm,
    /// The intervals over time.
    Rr,
}

/// A part of the area below the status table.
#[derive(Clone, Copy, Debug, PartialEq, Eq, Structural)]
pub enum ChartArea {
    /// All of it.
    Whole,
    /// Its left half.
    Left,
    /// Its right half.
    Right,
}

/// One chart and where it goes.
#[derive(Clone, Copy, Debug, PartialEq, Eq, Structural)]
pub struct ChartPlacement {
    pub chart: ChartType,
    pub area: ChartArea,
}

/// The charts to draw, in drawing order. Both charts switched on share one
/// chart where they are to be combined, and stand side by side otherwise; a
/// single chart takes the whole area; with none switched on, none is drawn.
pub open spec fn chart_placements(bpm_chart: bool, rr_chart: bool, combined: bool) -> Seq<
    ChartPlacement,
> {
    if combined && bpm_chart && rr_chart {
        seq![ChartPlacement { chart: ChartType::Combined, area: ChartArea::Whole }]
    } else if bpm_chart && rr_chart {
        seq![
            ChartPlacement { chart: ChartType::Bpm, area: ChartArea::Left },
            ChartPlacement { chart: ChartType::Rr, area: ChartArea::Right },
        ]
    } else if bpm_chart {
        seq![ChartPlacement { chart: ChartType::Bpm, area: ChartArea::Whole }]
    } else if rr_chart {
        seq![ChartPlacement { chart: ChartType::Rr, area: ChartArea::Whole }]
    } else {
        Seq::empty()
    }
}

/// Decides which charts to draw below the status table, and where.
pub fn chart_layout(bpm_chart: bool, rr_chart: bool, combined: bool) -> (layout: Vec<
    ChartPlacement,
>)
    ensures
        layout@ == chart_placements(bpm_chart, rr_chart, combined),
{
    let mut layout: Vec<ChartPlacement> = Vec::new();
    if combined && bpm_chart && rr_chart {
        layout.push(ChartPlacement { chart: ChartType::Combined, area: ChartArea::Whole });
    } else if bpm_chart && rr_chart {
        layout.push(ChartPlacement { chart: ChartType::Bpm, area: ChartArea::Left });
        layout.push(ChartPlacement { chart: ChartType::Rr, area: ChartArea::Right });
    } else if bpm_chart {
        layout.push(ChartPlacement { chart: ChartType::Bpm, area: ChartArea::Whole });
    } else if rr_chart {
        layout.push(ChartPlacement { chart: ChartType::Rr, area: ChartArea::Whole });
    }
    assert(layout@ =~= chart_placements(bpm_chart, rr_chart, combined));
    layout
}

} // verus!
