//! The typed metric manifest: named metrics, each with a kind, an optional
//! help text, ordered label names, and a sequence of labeled series points.

use vstd::prelude::*;
use crate::json::Json;
use crate::json::spec_obj_get;

verus! {

/// The kind of a metric. Only a gauge-like kind is recognized today; the
/// enum keeps the set open for extension.
#[derive(Clone, Copy, PartialEq, Eq, Structural, Debug)]
pub enum MetricKind {
    Gauge,
}

/// One data point: label values in positional order, and the sample value
/// as decimal text.
pub struct SeriesPoint {
    pub label_values: Vec<String>,
    pub value: String,
}

/// One metric: its kind, optional help text, declared label names, and its
/// series points.
pub struct MetricDef {
    pub kind: MetricKind,
    pub help: Option<String>,
    pub label_names: Vec<String>,
    pub series: Vec<SeriesPoint>,
}

/// A decoded manifest: metric names with their definitions, in document
/// order.
pub struct MetricManifest {
    pub metrics: Vec<(String, MetricDef)>,
}

/// Mathematical model of a series point.
pub struct SeriesPointV {
    pub label_values: Seq<Seq<char>>,
    pub value: Seq<char>,
}

/// Mathematical model of a metric definition.
pub struct MetricDefV {
    pub kind: MetricKind,
    pub help: Option<Seq<char>>,
    pub label_names: Seq<Seq<char>>,
    pub series: Seq<SeriesPointV>,
}

/// Mathematical model of a manifest: name/definition pairs in order.
pub type ManifestV = Seq<(Seq<char>, MetricDefV)>;

impl DeepView for SeriesPoint {
    type V = SeriesPointV;

    open spec fn deep_view(&self) -> SeriesPointV {
        SeriesPointV { label_values: self.label_values.deep_view(), value: self.value@ }
    }
}

impl View for SeriesPoint {
    type V = SeriesPointV;

    open spec fn view(&self) -> SeriesPointV {
        self.deep_view()
    }
}

impl DeepView for MetricDef {
    type V = MetricDefV;

    open spec fn deep_view(&self) -> MetricDefV {
        MetricDefV {
            kind: self.kind,
            help: match self.help {
                Some(h) => Some(h@),
                None => None,
            },
            label_names: self.label_names.deep_view(),
            series: self.series.deep_view(),
        }
    }
}

impl View for MetricDef {
    type V = MetricDefV;

    open spec fn view(&self) -> MetricDefV {
        self.deep_view()
    }
}

impl View for MetricManifest {
    type V = ManifestV;

    open spec fn view(&self) -> ManifestV {
        self.metrics.deep_view()
    }
}

} // verus!
