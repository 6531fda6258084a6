//! The traffic chart and the ordering of the report.

use vstd::prelude::*;

use crate::settings::{Language, StyleType};

verus! {

/// What the traffic chart plots.
#[derive(Clone, Copy, PartialEq, Eq, Structural, Debug, Hash)]
pub enum ChartType {
    Packets,
    Bytes,
}

/// How the entries of the report are ordered.
#[derive(Clone, Copy, PartialEq, Eq, Structural, Debug, Hash)]
pub enum ReportSortType {
    MostRecent,
    MostBytes,
    MostPackets,
}

/// The traffic chart: its kind and the language and style it is drawn in.
#[derive(Clone, Copy, PartialEq, Eq, Structural, Debug, Hash)]
pub struct TrafficChart {
    pub chart_type: ChartType,
    pub language: Language,
    pub style: StyleType,
}

impl TrafficChart {
    /// A new chart plots bytes.
    pub fn new(style: StyleType, language: Language) -> (r: TrafficChart)
        ensures
            r == (TrafficChart { chart_type: ChartType::Bytes, language, style }),
    {
        TrafficChart { chart_type: ChartType::Bytes, language, style }
    }

    pub fn change_kind(&mut self, kind: ChartType)
        ensures
            *final(self) == (TrafficChart { chart_type: kind, ..*old(self) }),
    {
        self.chart_type = kind;
    }

    pub fn change_language(&mut self, language: Language)
        ensures
            *final(self) == (TrafficChart { language, ..*old(self) }),
    {
        self.language = language;
    }

    pub fn change_style(&mut self, style: StyleType)
        ensures
            *final(self) == (TrafficChart { style, ..*old(self) }),
    {
        self.style = style;
    }
}

} // verus!
