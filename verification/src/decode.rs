//! Strict decoding of a generic JSON document into a [`MetricManifest`].
//!
//! The document must be an object mapping metric names to metric objects.
//! A metric object needs a `type` field equal to a known kind; `help`,
//! `label_names` and `series` are optional, with absent `label_names` and
//! `series` behaving exactly like empty arrays. No arity check between
//! `label_names` and each series' `label_values` happens here; mismatches
//! surface when rendering.

use vstd::prelude::*;
use crate::json::Json;
use crate::json::spec_obj_get;
use crate::json::obj_get;
use crate::json::str_eq;
use crate::manifest::MetricKind;
use crate::manifest::SeriesPoint;
use crate::manifest::SeriesPointV;
use crate::manifest::MetricDef;
use crate::manifest::MetricDefV;
use crate::manifest::MetricManifest;
use crate::manifest::ManifestV;

verus! {

/// Why a document failed to decode into a manifest.
#[derive(Clone, Copy, PartialEq, Eq, Structural, Debug)]
pub enum DecodeError {
    /// The top-level document is not an object.
    NotAnObject,
    /// A metric name is bound to something other than an object.
    MetricNotAnObject,
    /// A metric object has no `type` field.
    MissingType,
    /// The `type` field is not a known metric kind.
    UnknownMetricType,
    /// The `help` field is present but not a string.
    InvalidHelp,
    /// The `label_names` field is present but not an array of strings.
    InvalidLabelNames,
    /// The `series` field is present but not an array, or an entry in it is
    /// not an object.
    InvalidSeries,
    /// A series' `label_values` field is present but not an array of strings.
    InvalidLabelValues,
    /// A series' `value` field is missing or not a number.
    InvalidValue,
}

/// The metric kind a metric object declares.
pub open spec fn spec_kind_of(fs: Seq<(String, Json)>) -> Result<MetricKind, DecodeError> {
    match spec_obj_get(fs, "type"@) {
        None => Err(DecodeError::MissingType),
        Some(t) => match t {
            Json::Str(t) => if t@ == "gauge"@ {
                Ok(MetricKind::Gauge)
            } else {
                Err(DecodeError::UnknownMetricType)
            },
            _ => Err(DecodeError::UnknownMetricType),
        },
    }
}

/// The optional help text a metric object declares.
pub open spec fn spec_help_of(fs: Seq<(String, Json)>) -> Result<Option<Seq<char>>, DecodeError> {
    match spec_obj_get(fs, "help"@) {
        None => Ok(None),
        Some(h) => match h {
            Json::Str(h) => Ok(Some(h@)),
            _ => Err(DecodeError::InvalidHelp),
        },
    }
}

/// The character sequences of a run of string values; `None` when a value
/// is not a string.
pub open spec fn spec_strings(items: Seq<Json>) -> Option<Seq<Seq<char>>>
    decreases items.len(),
{
    if items.len() == 0 {
        Some(Seq::empty())
    } else {
        match items[0] {
            Json::Str(s) => match spec_strings(items.skip(1)) {
                Some(rest) => Some(seq![s@] + rest),
                None => None,
            },
            _ => None,
        }
    }
}

/// The label names a metric object declares; absent means empty.
pub open spec fn spec_label_names_of(fs: Seq<(String, Json)>) -> Result<
    Seq<Seq<char>>,
    DecodeError,
> {
    match spec_obj_get(fs, "label_names"@) {
        None => Ok(Seq::empty()),
        Some(l) => match l {
            Json::Arr(a) => match spec_strings(a@) {
                Some(names) => Ok(names),
                None => Err(DecodeError::InvalidLabelNames),
            },
            _ => Err(DecodeError::InvalidLabelNames),
        },
    }
}

/// One decoded series point: optional `label_values` (absent means empty)
/// and a required numeric `value`.
pub open spec fn spec_series_point(j: Json) -> Result<SeriesPointV, DecodeError> {
    match j {
        Json::Obj(f) => match spec_obj_get(f@, "label_values"@) {
            None => spec_series_value(f@, Seq::empty()),
            Some(l) => match l {
                Json::Arr(a) => match spec_strings(a@) {
                    Some(values) => spec_series_value(f@, values),
                    None => Err(DecodeError::InvalidLabelValues),
                },
                _ => Err(DecodeError::InvalidLabelValues),
            },
        },
        _ => Err(DecodeError::InvalidSeries),
    }
}

/// Finishes a series point once its label values are known.
pub open spec fn spec_series_value(fs: Seq<(String, Json)>, label_values: Seq<Seq<char>>) -> Result<
    SeriesPointV,
    DecodeError,
> {
    match spec_obj_get(fs, "value"@) {
        Some(v) => match v {
            Json::Num(n) => Ok(SeriesPointV { label_values: label_values, value: n@ }),
            _ => Err(DecodeError::InvalidValue),
        },
        None => Err(DecodeError::InvalidValue),
    }
}

/// Decodes a run of series objects, stopping at the first failure.
pub open spec fn spec_series_list(items: Seq<Json>) -> Result<Seq<SeriesPointV>, DecodeError>
    decreases items.len(),
{
    if items.len() == 0 {
        Ok(Seq::empty())
    } else {
        match spec_series_point(items[0]) {
            Err(e) => Err(e),
            Ok(p) => match spec_series_list(items.skip(1)) {
                Err(e) => Err(e),
                Ok(rest) => Ok(seq![p] + rest),
            },
        }
    }
}

/// The series a metric object declares; absent means empty.
pub open spec fn spec_series_of(fs: Seq<(String, Json)>) -> Result<
    Seq<SeriesPointV>,
    DecodeError,
> {
    match spec_obj_get(fs, "series"@) {
        None => Ok(Seq::empty()),
        Some(s) => match s {
            Json::Arr(a) => spec_series_list(a@),
            _ => Err(DecodeError::InvalidSeries),
        },
    }
}

/// Decodes one metric object; fields are checked in the order `type`,
/// `help`, `label_names`, `series`, and the first failure wins.
pub open spec fn spec_decode_metric(j: Json) -> Result<MetricDefV, DecodeError> {
    match j {
        Json::Obj(f) => match spec_kind_of(f@) {
            Err(e) => Err(e),
            Ok(kind) => match spec_help_of(f@) {
                Err(e) => Err(e),
                Ok(help) => match spec_label_names_of(f@) {
                    Err(e) => Err(e),
                    Ok(label_names) => match spec_series_of(f@) {
                        Err(e) => Err(e),
                        Ok(series) => Ok(
                            MetricDefV { kind, help, label_names, series },
                        ),
                    },
                },
            },
        },
        _ => Err(DecodeError::MetricNotAnObject),
    }
}

/// Decodes a run of name/metric pairs in document order, stopping at the
/// first failure.
pub open spec fn spec_decode_metrics(fields: Seq<(String, Json)>) -> Result<
    ManifestV,
    DecodeError,
>
    decreases fields.len(),
{
    if fields.len() == 0 {
        Ok(Seq::empty())
    } else {
        match spec_decode_metric(fields[0].1) {
            Err(e) => Err(e),
            Ok(d) => match spec_decode_metrics(fields.skip(1)) {
                Err(e) => Err(e),
                Ok(rest) => Ok(seq![(fields[0].0@, d)] + rest),
            },
        }
    }
}

/// Decodes a whole document into a manifest.
pub open spec fn spec_decode(doc: Json) -> Result<ManifestV, DecodeError> {
    match doc {
        Json::Obj(fields) => spec_decode_metrics(fields@),
        _ => Err(DecodeError::NotAnObject),
    }
}

/// Extracts the strings of `items`; `None` when a value is not a string.
fn strings_of(items: &Vec<Json>) -> (r: Option<Vec<String>>)
    ensures
        match r {
            Some(v) => spec_strings(items@) == Some(v.deep_view()),
            None => spec_strings(items@) is None,
        },
{
    let n = items.len();
    let mut out: Vec<String> = Vec::new();
    let mut i: usize = 0;
    proof {
        assert(items@.skip(0) =~= items@);
    }
    while i < n
        invariant
            0 <= i <= n,
            n == items@.len(),
            out@.len() == i,
            match spec_strings(items@.skip(i as int)) {
                Some(rest) => spec_strings(items@) == Some(out.deep_view() + rest),
                None => spec_strings(items@) is None,
            },
        decreases n - i,
    {
        proof {
            assert(items@.skip(i as int)[0] == items@[i as int]);
            assert(items@.skip(i as int).skip(1) =~= items@.skip(i as int + 1));
        }
        let ghost prev = out.deep_view();
        match &items[i] {
            Json::Str(s) => {
                out.push(s.clone());
                proof {
                    assert(out.deep_view() =~= prev.push(s@));
                    if spec_strings(items@.skip(i as int + 1)) is Some {
                        let rest = spec_strings(items@.skip(i as int + 1)).unwrap();
                        assert(prev + (seq![s@] + rest) =~= prev.push(s@) + rest);
                    }
                }
            },
            _ => {
                return None;
            },
        }
        i = i + 1;
    }
    proof {
        assert(items@.skip(n as int) =~= Seq::<Json>::empty());
        assert(out.deep_view() + Seq::<Seq<char>>::empty() =~= out.deep_view());
    }
    Some(out)
}

/// Decodes one series object.
fn decode_series_point(j: &Json) -> (r: Result<SeriesPoint, DecodeError>)
    ensures
        match r {
            Ok(p) => spec_series_point(*j) == Ok::<SeriesPointV, DecodeError>(p.deep_view()),
            Err(e) => spec_series_point(*j) == Err::<SeriesPointV, DecodeError>(e),
        },
{
    match j {
        Json::Obj(f) => {
            let label_values: Vec<String> = match obj_get(f, "label_values") {
                None => {
                    let v: Vec<String> = Vec::new();
                    proof {
                        assert(v.deep_view() =~= Seq::<Seq<char>>::empty());
                    }
                    v
                },
                Some(l) => match l {
                    Json::Arr(a) => match strings_of(a) {
                        Some(values) => values,
                        None => {
                            return Err(DecodeError::InvalidLabelValues);
                        },
                    },
                    _ => {
                        return Err(DecodeError::InvalidLabelValues);
                    },
                },
            };
            match obj_get(f, "value") {
                Some(v) => match v {
                    Json::Num(n) => Ok(
                        SeriesPoint { label_values, value: n.clone() },
                    ),
                    _ => Err(DecodeError::InvalidValue),
                },
                None => Err(DecodeError::InvalidValue),
            }
        },
        _ => Err(DecodeError::InvalidSeries),
    }
}

/// Decodes one metric object.
fn decode_metric(j: &Json) -> (r: Result<MetricDef, DecodeError>)
    ensures
        match r {
            Ok(d) => spec_decode_metric(*j) == Ok::<MetricDefV, DecodeError>(d.deep_view()),
            Err(e) => spec_decode_metric(*j) == Err::<MetricDefV, DecodeError>(e),
        },
{
    match j {
        Json::Obj(f) => {
            let kind: MetricKind = match obj_get(f, "type") {
                None => {
                    return Err(DecodeError::MissingType);
                },
                Some(t) => match t {
                    Json::Str(t) => if str_eq(t.as_str(), "gauge") {
                        MetricKind::Gauge
                    } else {
                        return Err(DecodeError::UnknownMetricType);
                    },
                    _ => {
                        return Err(DecodeError::UnknownMetricType);
                    },
                },
            };
            let help: Option<String> = match obj_get(f, "help") {
                None => None,
                Some(h) => match h {
                    Json::Str(h) => Some(h.clone()),
                    _ => {
                        return Err(DecodeError::InvalidHelp);
                    },
                },
            };
            let label_names: Vec<String> = match obj_get(f, "label_names") {
                None => {
                    let v: Vec<String> = Vec::new();
                    proof {
                        assert(v.deep_view() =~= Seq::<Seq<char>>::empty());
                    }
                    v
                },
                Some(l) => match l {
                    Json::Arr(a) => match strings_of(a) {
                        Some(names) => names,
                        None => {
                            return Err(DecodeError::InvalidLabelNames);
                        },
                    },
                    _ => {
                        return Err(DecodeError::InvalidLabelNames);
                    },
                },
            };
            let series: Vec<SeriesPoint> = match obj_get(f, "series") {
                None => {
                    let v: Vec<SeriesPoint> = Vec::new();
                    proof {
                        assert(v.deep_view() =~= Seq::<SeriesPointV>::empty());
                    }
                    v
                },
                Some(s) => match s {
                    Json::Arr(a) => match decode_series_list(a) {
                        Ok(points) => points,
                        Err(e) => {
                            return Err(e);
                        },
                    },
                    _ => {
                        return Err(DecodeError::InvalidSeries);
                    },
                },
            };
            Ok(MetricDef { kind, help, label_names, series })
        },
        _ => Err(DecodeError::MetricNotAnObject),
    }
}

/// Decodes a run of series objects.
fn decode_series_list(items: &Vec<Json>) -> (r: Result<Vec<SeriesPoint>, DecodeError>)
    ensures
        match r {
            Ok(v) => spec_series_list(items@) == Ok::<Seq<SeriesPointV>, DecodeError>(
                v.deep_view(),
            ),
            Err(e) => spec_series_list(items@) == Err::<Seq<SeriesPointV>, DecodeError>(e),
        },
{
    let n = items.len();
    let mut out: Vec<SeriesPoint> = Vec::new();
    let mut i: usize = 0;
    proof {
        assert(items@.skip(0) =~= items@);
    }
    while i < n
        invariant
            0 <= i <= n,
            n == items@.len(),
            out@.len() == i,
            match spec_series_list(items@.skip(i as int)) {
                Ok(rest) => spec_series_list(items@) == Ok::<Seq<SeriesPointV>, DecodeError>(
                    out.deep_view() + rest,
                ),
                Err(e) => spec_series_list(items@) == Err::<Seq<SeriesPointV>, DecodeError>(e),
            },
        decreases n - i,
    {
        proof {
            assert(items@.skip(i as int)[0] == items@[i as int]);
            assert(items@.skip(i as int).skip(1) =~= items@.skip(i as int + 1));
        }
        let ghost prev = out.deep_view();
        match decode_series_point(&items[i]) {
            Ok(p) => {
                let ghost pv = p.deep_view();
                out.push(p);
                proof {
                    assert(out.deep_view() =~= prev.push(pv));
                    if spec_series_list(items@.skip(i as int + 1)) is Ok {
                        let rest = spec_series_list(items@.skip(i as int + 1)).unwrap();
                        assert(prev + (seq![pv] + rest) =~= prev.push(pv) + rest);
                    }
                }
            },
            Err(e) => {
                return Err(e);
            },
        }
        i = i + 1;
    }
    proof {
        assert(items@.skip(n as int) =~= Seq::<Json>::empty());
        assert(out.deep_view() + Seq::<SeriesPointV>::empty() =~= out.deep_view());
    }
    Ok(out)
}

/// Decodes a JSON document into a metric manifest, reporting the first
/// schema violation in document order.
pub fn decode(doc: &Json) -> (r: Result<MetricManifest, DecodeError>)
    ensures
        match r {
            Ok(m) => spec_decode(*doc) == Ok::<ManifestV, DecodeError>(m@),
            Err(e) => spec_decode(*doc) == Err::<ManifestV, DecodeError>(e),
        },
{
    match doc {
        Json::Obj(fields) => {
            let n = fields.len();
            let mut out: Vec<(String, MetricDef)> = Vec::new();
            let mut i: usize = 0;
            proof {
                assert(fields@.skip(0) =~= fields@);
            }
            while i < n
                invariant
                    0 <= i <= n,
                    n == fields@.len(),
                    out@.len() == i,
                    *doc == Json::Obj(*fields),
                    match spec_decode_metrics(fields@.skip(i as int)) {
                        Ok(rest) => spec_decode_metrics(fields@) == Ok::<ManifestV, DecodeError>(
                            out.deep_view() + rest,
                        ),
                        Err(e) => spec_decode_metrics(fields@) == Err::<ManifestV, DecodeError>(e),
                    },
                decreases n - i,
            {
                proof {
                    assert(fields@.skip(i as int)[0] == fields@[i as int]);
                    assert(fields@.skip(i as int).skip(1) =~= fields@.skip(i as int + 1));
                }
                let ghost prev = out.deep_view();
                match decode_metric(&fields[i].1) {
                    Ok(d) => {
                        let ghost dv = d.deep_view();
                        let name = fields[i].0.clone();
                        let ghost namev = name@;
                        out.push((name, d));
                        proof {
                            assert(out.deep_view() =~= prev.push((namev, dv)));
                            if spec_decode_metrics(fields@.skip(i as int + 1)) is Ok {
                                let rest = spec_decode_metrics(
                                    fields@.skip(i as int + 1),
                                ).unwrap();
                                assert(prev + (seq![(namev, dv)] + rest) =~= prev.push(
                                    (namev, dv),
                                ) + rest);
                            }
                        }
                    },
                    Err(e) => {
                        return Err(e);
                    },
                }
                i = i + 1;
            }
            proof {
                assert(fields@.skip(n as int) =~= Seq::<(String, Json)>::empty());
                assert(out.deep_view() + Seq::<(Seq<char>, MetricDefV)>::empty()
                    =~= out.deep_view());
            }
            Ok(MetricManifest { metrics: out })
        },
        _ => Err(DecodeError::NotAnObject),
    }
}

/// Decoding keeps metric names: a decoded manifest's names are exactly the
/// document object's keys, in order.
pub proof fn lemma_decode_metrics_names(fields: Seq<(String, Json)>)
    ensures
        spec_decode_metrics(fields) matches Ok(m) ==> m.len() == fields.len() && (forall|j: int|
            0 <= j < fields.len() ==> (#[trigger] m[j]).0 == fields[j].0@),
    decreases fields.len(),
{
    if fields.len() > 0 {
        lemma_decode_metrics_names(fields.skip(1));
        if spec_decode_metrics(fields) is Ok {
            let m = spec_decode_metrics(fields)->Ok_0;
            let rest = spec_decode_metrics(fields.skip(1))->Ok_0;
            assert forall|j: int| 0 <= j < fields.len() implies (#[trigger] m[j]).0
                == fields[j].0@ by {
                if j > 0 {
                    assert(m[j] == rest[j - 1]);
                    assert(fields.skip(1)[j - 1] == fields[j]);
                }
            }
        }
    }
}

/// Law: a manifest decoded from a document whose top-level keys are unique
/// — as every parsed document's are — has unique metric names, so
/// rendering it can never report a duplicate name.
pub proof fn lemma_decode_unique_names(doc: Json, m: ManifestV)
    requires
        crate::json::top_keys_unique(doc),
        spec_decode(doc) == Ok::<ManifestV, DecodeError>(m),
    ensures
        crate::render::unique_names(m),
{
    match doc {
        Json::Obj(fields) => {
            lemma_decode_metrics_names(fields@);
            assert forall|a: int, b: int| 0 <= a < b < m.len() implies (#[trigger] m[a]).0 != (
            #[trigger] m[b]).0 by {
                assert(fields@[a].0@ != fields@[b].0@);
            }
        },
        _ => {},
    }
}

/// Law: a metric object without `label_names` or without `series` decodes
/// exactly as one binding the field to an empty array — absent and empty
/// are the same.
pub proof fn lemma_decode_defaults(fs: Seq<(String, Json)>, empty_arr: Json)
    requires
        empty_arr matches Json::Arr(v) && v@.len() == 0,
    ensures
        spec_obj_get(fs, "label_names"@) is None ==> spec_label_names_of(fs) == Ok::<
            Seq<Seq<char>>,
            DecodeError,
        >(Seq::empty()),
        spec_obj_get(fs, "label_names"@) == Some(empty_arr) ==> spec_label_names_of(fs) == Ok::<
            Seq<Seq<char>>,
            DecodeError,
        >(Seq::empty()),
        spec_obj_get(fs, "series"@) is None ==> spec_series_of(fs) == Ok::<
            Seq<SeriesPointV>,
            DecodeError,
        >(Seq::empty()),
        spec_obj_get(fs, "series"@) == Some(empty_arr) ==> spec_series_of(fs) == Ok::<
            Seq<SeriesPointV>,
            DecodeError,
        >(Seq::empty()),
{
}

/// The schema's field names are pairwise distinct wherever a lookup has to
/// walk past one of them.
proof fn lemma_keys_distinct()
    ensures
        "type"@ != "help"@,
        "type"@ != "label_names"@,
        "type"@ != "series"@,
        "help"@ != "label_names"@,
        "help"@ != "series"@,
        "label_names"@ != "series"@,
        "label_values"@ != "value"@,
{
    reveal_strlit("type");
    reveal_strlit("help");
    reveal_strlit("label_names");
    reveal_strlit("series");
    reveal_strlit("label_values");
    reveal_strlit("value");
    assert("type"@.len() == 4);
    assert("help"@.len() == 4);
    assert("label_names"@.len() == 11);
    assert("series"@.len() == 6);
    assert("label_values"@.len() == 12);
    assert("value"@.len() == 5);
    assert("type"@[0] == 't');
    assert("help"@[0] == 'h');
}

/// Builds the JSON array of string values mirroring `v`.
fn strs_to_json(v: &Vec<String>) -> (r: Vec<Json>)
    ensures
        spec_strings(r@) == Some(v.deep_view()),
{
    let ghost vv = v.deep_view();
    let n = v.len();
    let mut out: Vec<Json> = Vec::new();
    let mut k: usize = n;
    proof {
        assert(vv.skip(n as int) =~= Seq::<Seq<char>>::empty());
        assert(out@ =~= Seq::<Json>::empty());
    }
    while k > 0
        invariant
            0 <= k <= n,
            n == v@.len(),
            vv == v.deep_view(),
            spec_strings(out@) == Some(vv.skip(k as int)),
        decreases k,
    {
        k = k - 1;
        let s = v[k].clone();
        let ghost sv = s@;
        let ghost oldout = out@;
        out.insert(0, Json::Str(s));
        proof {
            assert(vv[k as int] == v@[k as int]@);
            assert(sv == vv[k as int]);
            assert(out@[0] == Json::Str(s));
            assert(out@.skip(1) =~= oldout);
            assert(seq![sv] + vv.skip(k as int + 1) =~= vv.skip(k as int));
        }
    }
    proof {
        assert(vv.skip(0) =~= vv);
    }
    out
}

/// Builds the JSON object form of one series point.
fn point_to_json(p: &SeriesPoint) -> (r: Json)
    ensures
        spec_series_point(r) == Ok::<SeriesPointV, DecodeError>(p.deep_view()),
{
    let mut pf: Vec<(String, Json)> = Vec::new();
    let labels = strs_to_json(&p.label_values);
    pf.push(("label_values".to_owned(), Json::Arr(labels)));
    pf.push(("value".to_owned(), Json::Num(p.value.clone())));
    proof {
        lemma_keys_distinct();
        assert(pf@.len() == 2);
        assert(pf@[0].0@ == "label_values"@);
        assert(pf@[1].0@ == "value"@);
        assert(pf@.skip(1)[0] == pf@[1]);
        assert(spec_obj_get(pf@, "label_values"@) is Some);
        assert(spec_obj_get(pf@, "value"@) == spec_obj_get(pf@.skip(1), "value"@));
    }
    Json::Obj(pf)
}

/// Builds the JSON array of series objects mirroring `v`.
fn series_to_json(v: &Vec<SeriesPoint>) -> (r: Vec<Json>)
    ensures
        spec_series_list(r@) == Ok::<Seq<SeriesPointV>, DecodeError>(v.deep_view()),
{
    let ghost vv = v.deep_view();
    let n = v.len();
    let mut out: Vec<Json> = Vec::new();
    let mut k: usize = n;
    proof {
        assert(vv.skip(n as int) =~= Seq::<SeriesPointV>::empty());
        assert(out@ =~= Seq::<Json>::empty());
    }
    while k > 0
        invariant
            0 <= k <= n,
            n == v@.len(),
            vv == v.deep_view(),
            spec_series_list(out@) == Ok::<Seq<SeriesPointV>, DecodeError>(vv.skip(k as int)),
        decreases k,
    {
        k = k - 1;
        let pj = point_to_json(&v[k]);
        let ghost oldout = out@;
        out.insert(0, pj);
        proof {
            assert(vv[k as int] == v@[k as int].deep_view());
            assert(out@[0] == pj);
            assert(out@.skip(1) =~= oldout);
            assert(seq![vv[k as int]] + vv.skip(k as int + 1) =~= vv.skip(k as int));
        }
    }
    proof {
        assert(vv.skip(0) =~= vv);
    }
    out
}

/// Builds the JSON object form of one metric definition.
fn metric_to_json(d: &MetricDef) -> (r: Json)
    ensures
        spec_decode_metric(r) == Ok::<MetricDefV, DecodeError>(d.deep_view()),
{
    let ghost dv = d.deep_view();
    let mut mf: Vec<(String, Json)> = Vec::new();
    match d.kind {
        MetricKind::Gauge => mf.push(("type".to_owned(), Json::Str("gauge".to_owned()))),
    }
    let has_help: bool = match &d.help {
        Some(h) => {
            mf.push(("help".to_owned(), Json::Str(h.clone())));
            true
        },
        None => false,
    };
    let names = strs_to_json(&d.label_names);
    mf.push(("label_names".to_owned(), Json::Arr(names)));
    let points = series_to_json(&d.series);
    mf.push(("series".to_owned(), Json::Arr(points)));
    proof {
        lemma_keys_distinct();
        if has_help {
            assert(mf@.len() == 4);
            assert(mf@[0].0@ == "type"@);
            assert(mf@[1].0@ == "help"@);
            assert(mf@[2].0@ == "label_names"@);
            assert(mf@[3].0@ == "series"@);
            assert(mf@.skip(1)[0] == mf@[1]);
            assert(mf@.skip(1).skip(1) =~= mf@.skip(2));
            assert(mf@.skip(2)[0] == mf@[2]);
            assert(mf@.skip(2).skip(1) =~= mf@.skip(3));
            assert(mf@.skip(3)[0] == mf@[3]);
            assert(spec_kind_of(mf@) == Ok::<MetricKind, DecodeError>(MetricKind::Gauge));
            assert(spec_obj_get(mf@, "help"@) == spec_obj_get(mf@.skip(1), "help"@));
            assert(spec_help_of(mf@) == Ok::<Option<Seq<char>>, DecodeError>(dv.help));
            assert(spec_obj_get(mf@, "label_names"@) == spec_obj_get(mf@.skip(1), "label_names"@));
            assert(spec_obj_get(mf@.skip(1), "label_names"@) == spec_obj_get(
                mf@.skip(2),
                "label_names"@,
            ));
            assert(spec_label_names_of(mf@) == Ok::<Seq<Seq<char>>, DecodeError>(dv.label_names));
            assert(spec_obj_get(mf@, "series"@) == spec_obj_get(mf@.skip(1), "series"@));
            assert(spec_obj_get(mf@.skip(1), "series"@) == spec_obj_get(mf@.skip(2), "series"@));
            assert(spec_obj_get(mf@.skip(2), "series"@) == spec_obj_get(mf@.skip(3), "series"@));
            assert(spec_series_of(mf@) == Ok::<Seq<SeriesPointV>, DecodeError>(dv.series));
        } else {
            assert(mf@.len() == 3);
            assert(mf@[0].0@ == "type"@);
            assert(mf@[1].0@ == "label_names"@);
            assert(mf@[2].0@ == "series"@);
            assert(mf@.skip(1)[0] == mf@[1]);
            assert(mf@.skip(1).skip(1) =~= mf@.skip(2));
            assert(mf@.skip(2)[0] == mf@[2]);
            assert(mf@.skip(2).skip(1) =~= mf@.skip(3));
            assert(mf@.skip(3) =~= Seq::<(String, Json)>::empty());
            assert(spec_kind_of(mf@) == Ok::<MetricKind, DecodeError>(MetricKind::Gauge));
            assert(spec_obj_get(mf@, "help"@) == spec_obj_get(mf@.skip(1), "help"@));
            assert(spec_obj_get(mf@.skip(1), "help"@) == spec_obj_get(mf@.skip(2), "help"@));
            assert(spec_obj_get(mf@.skip(2), "help"@) == spec_obj_get(mf@.skip(3), "help"@));
            assert(spec_help_of(mf@) == Ok::<Option<Seq<char>>, DecodeError>(dv.help));
            assert(spec_obj_get(mf@, "label_names"@) == spec_obj_get(mf@.skip(1), "label_names"@));
            assert(spec_label_names_of(mf@) == Ok::<Seq<Seq<char>>, DecodeError>(dv.label_names));
            assert(spec_obj_get(mf@, "series"@) == spec_obj_get(mf@.skip(1), "series"@));
            assert(spec_obj_get(mf@.skip(1), "series"@) == spec_obj_get(mf@.skip(2), "series"@));
            assert(spec_series_of(mf@) == Ok::<Seq<SeriesPointV>, DecodeError>(dv.series));
        }
    }
    Json::Obj(mf)
}

impl MetricManifest {
    /// Law: feeding a manifest's JSON document form back through `decode`
    /// yields the manifest itself — metric names, kinds, help texts, label
    /// names and series all survive the round trip, in order.
    pub fn to_document(&self) -> (doc: Json)
        ensures
            spec_decode(doc) == Ok::<ManifestV, DecodeError>(self@),
    {
        let ghost mv = self@;
        let n = self.metrics.len();
        let mut fields: Vec<(String, Json)> = Vec::new();
        let mut k: usize = n;
        proof {
            assert(mv.skip(n as int) =~= Seq::<(Seq<char>, MetricDefV)>::empty());
            assert(fields@ =~= Seq::<(String, Json)>::empty());
        }
        while k > 0
            invariant
                0 <= k <= n,
                n == self.metrics@.len(),
                mv == self@,
                mv == self.metrics.deep_view(),
                spec_decode_metrics(fields@) == Ok::<ManifestV, DecodeError>(mv.skip(k as int)),
            decreases k,
        {
            k = k - 1;
            proof {
                assert(mv[k as int] == (
                    self.metrics@[k as int].0@,
                    self.metrics@[k as int].1.deep_view(),
                ));
            }
            let mj = metric_to_json(&self.metrics[k].1);
            let name = self.metrics[k].0.clone();
            let ghost namev = name@;
            let ghost oldf = fields@;
            fields.insert(0, (name, mj));
            proof {
                assert(fields@[0].0@ == namev);
                assert(fields@[0].1 == mj);
                assert(fields@.skip(1) =~= oldf);
                assert(seq![(namev, mv[k as int].1)] + mv.skip(k as int + 1) =~= mv.skip(
                    k as int,
                ));
            }
        }
        proof {
            assert(mv.skip(0) =~= mv);
        }
        Json::Obj(fields)
    }
}

} // verus!
