use jsonnet_exporter::decode::{decode, DecodeError};
use jsonnet_exporter::json::{json_to_string, obj_get, Json};
use jsonnet_exporter::manifest::{MetricDef, MetricKind, MetricManifest, SeriesPoint};
use jsonnet_exporter::render::{render, RenderError};

const PLACEHOLDER: &str =
    "jsonnet-exporter: Metric help is missing, consider adding a help text to the module config.";

fn obj(fields: Vec<(&str, Json)>) -> Json {
    Json::Obj(fields.into_iter().map(|(k, v)| (k.to_string(), v)).collect())
}

fn strs(values: Vec<&str>) -> Json {
    Json::Arr(values.into_iter().map(|s| Json::Str(s.to_string())).collect())
}

fn gauge_metric(help: Option<&str>, label_names: Vec<&str>, series: Vec<Json>) -> Json {
    let mut fields = vec![("type", Json::Str("gauge".to_string()))];
    if let Some(h) = help {
        fields.push(("help", Json::Str(h.to_string())));
    }
    fields.push(("label_names", strs(label_names)));
    fields.push(("series", Json::Arr(series)));
    obj(fields)
}

fn series(label_values: Vec<&str>, value: &str) -> Json {
    obj(vec![
        ("label_values", strs(label_values)),
        ("value", Json::Num(value.to_string())),
    ])
}

#[test]
fn decode_gauge_with_labels() {
    let doc = obj(vec![(
        "http_requests",
        gauge_metric(
            Some("requests seen"),
            vec!["code", "method"],
            vec![series(vec!["200", "get"], "12"), series(vec!["500", "post"], "3")],
        ),
    )]);
    let m = decode(&doc).unwrap();
    assert_eq!(m.metrics.len(), 1);
    let (name, def) = &m.metrics[0];
    assert_eq!(name, "http_requests");
    assert_eq!(def.kind, MetricKind::Gauge);
    assert_eq!(def.help.as_deref(), Some("requests seen"));
    assert_eq!(def.label_names, vec!["code".to_string(), "method".to_string()]);
    assert_eq!(def.series.len(), 2);
    assert_eq!(def.series[0].label_values, vec!["200".to_string(), "get".to_string()]);
    assert_eq!(def.series[0].value, "12");
    assert_eq!(def.series[1].value, "3");
}

#[test]
fn decode_rejects_unknown_metric_type() {
    let doc = obj(vec![("m", obj(vec![("type", Json::Str("counter".to_string()))]))]);
    assert!(matches!(decode(&doc), Err(DecodeError::UnknownMetricType)));
}

#[test]
fn decode_rejects_missing_type() {
    let doc = obj(vec![("m", obj(vec![("help", Json::Str("h".to_string()))]))]);
    assert!(matches!(decode(&doc), Err(DecodeError::MissingType)));
}

#[test]
fn decode_rejects_missing_value() {
    let doc = obj(vec![(
        "m",
        gauge_metric(None, vec![], vec![obj(vec![("label_values", strs(vec![]))])]),
    )]);
    assert!(matches!(decode(&doc), Err(DecodeError::InvalidValue)));
}

#[test]
fn decode_rejects_non_numeric_value() {
    let doc = obj(vec![(
        "m",
        gauge_metric(None, vec![], vec![obj(vec![("value", Json::Str("5".to_string()))])]),
    )]);
    assert!(matches!(decode(&doc), Err(DecodeError::InvalidValue)));
}

#[test]
fn decode_rejects_non_object_document() {
    assert!(matches!(decode(&Json::Num("1".to_string())), Err(DecodeError::NotAnObject)));
    assert!(matches!(
        decode(&obj(vec![("m", Json::Null)])),
        Err(DecodeError::MetricNotAnObject)
    ));
}

#[test]
fn decode_defaults_match_empty_arrays() {
    // Omitting help, label_names and series behaves exactly like empty arrays.
    let omitted = obj(vec![("m", obj(vec![("type", Json::Str("gauge".to_string()))]))]);
    let explicit = obj(vec![("m", gauge_metric(None, vec![], vec![]))]);
    let m1 = decode(&omitted).unwrap();
    let m2 = decode(&explicit).unwrap();
    for m in [&m1, &m2] {
        let def = &m.metrics[0].1;
        assert_eq!(def.help, None);
        assert!(def.label_names.is_empty());
        assert!(def.series.is_empty());
    }
}

#[test]
fn decode_series_without_label_values_gets_empty() {
    let doc = obj(vec![(
        "m",
        gauge_metric(None, vec![], vec![obj(vec![("value", Json::Num("7".to_string()))])]),
    )]);
    let m = decode(&doc).unwrap();
    assert!(m.metrics[0].1.series[0].label_values.is_empty());
    assert_eq!(m.metrics[0].1.series[0].value, "7");
}

fn manifest(entries: Vec<(&str, MetricDef)>) -> MetricManifest {
    MetricManifest {
        metrics: entries.into_iter().map(|(n, d)| (n.to_string(), d)).collect(),
    }
}

fn def(help: Option<&str>, names: Vec<&str>, series: Vec<(Vec<&str>, &str)>) -> MetricDef {
    MetricDef {
        kind: MetricKind::Gauge,
        help: help.map(|h| h.to_string()),
        label_names: names.into_iter().map(|s| s.to_string()).collect(),
        series: series
            .into_iter()
            .map(|(lv, v)| SeriesPoint {
                label_values: lv.into_iter().map(|s| s.to_string()).collect(),
                value: v.to_string(),
            })
            .collect(),
    }
}

#[test]
fn render_without_labels_is_three_lines() {
    let m = manifest(vec![("requests_total", def(None, vec![], vec![(vec![], "5")]))]);
    let text = render(&m).unwrap();
    assert_eq!(
        text,
        format!(
            "# HELP requests_total {}\n# TYPE requests_total gauge\nrequests_total 5\n",
            PLACEHOLDER
        )
    );
}

#[test]
fn render_with_labels_quotes_values_in_order() {
    let m = manifest(vec![(
        "http_requests",
        def(
            Some("requests seen"),
            vec!["code", "method"],
            vec![(vec!["200", "get"], "12"), (vec!["500", "post"], "3")],
        ),
    )]);
    let text = render(&m).unwrap();
    assert_eq!(
        text,
        "# HELP http_requests requests seen\n\
         # TYPE http_requests gauge\n\
         http_requests{code=\"200\",method=\"get\"} 12\n\
         http_requests{code=\"500\",method=\"post\"} 3\n"
    );
}

#[test]
fn render_escapes_help_and_label_values() {
    let m = manifest(vec![(
        "m",
        def(Some("line\nbreak\\here"), vec!["l"], vec![(vec!["say \"hi\"\n"], "1")]),
    )]);
    let text = render(&m).unwrap();
    assert_eq!(
        text,
        "# HELP m line\\nbreak\\\\here\n# TYPE m gauge\nm{l=\"say \\\"hi\\\"\\n\"} 1\n"
    );
}

#[test]
fn render_fails_on_label_arity_mismatch() {
    let m = manifest(vec![("m", def(None, vec!["a", "b"], vec![(vec!["only_one"], "1")]))]);
    assert_eq!(render(&m), Err(RenderError::LabelArityMismatch));
    let m = manifest(vec![("m", def(None, vec![], vec![(vec!["extra"], "1")]))]);
    assert_eq!(render(&m), Err(RenderError::LabelArityMismatch));
}

#[test]
fn render_succeeds_on_equal_counts_including_zero() {
    let zero = manifest(vec![("m", def(None, vec![], vec![(vec![], "0")]))]);
    assert!(render(&zero).is_ok());
    let two = manifest(vec![("m", def(None, vec!["a", "b"], vec![(vec!["x", "y"], "0")]))]);
    assert!(render(&two).is_ok());
}

#[test]
fn render_fails_on_duplicate_metric_name() {
    let m = manifest(vec![
        ("m", def(None, vec![], vec![])),
        ("m", def(None, vec![], vec![])),
    ]);
    assert_eq!(render(&m), Err(RenderError::DuplicateMetricName));
}

#[test]
fn manifest_round_trips_through_decode() {
    let m = manifest(vec![
        (
            "first",
            def(Some("a help"), vec!["x"], vec![(vec!["1"], "0.25"), (vec!["2"], "7")]),
        ),
        ("second", def(None, vec![], vec![(vec![], "3")])),
    ]);
    let doc = m.to_document();
    let back = decode(&doc).unwrap();
    assert_eq!(back.metrics.len(), 2);
    assert_eq!(back.metrics[0].0, "first");
    assert_eq!(back.metrics[0].1.kind, MetricKind::Gauge);
    assert_eq!(back.metrics[0].1.help.as_deref(), Some("a help"));
    assert_eq!(back.metrics[0].1.label_names, vec!["x".to_string()]);
    assert_eq!(back.metrics[0].1.series.len(), 2);
    assert_eq!(back.metrics[0].1.series[0].label_values, vec!["1".to_string()]);
    assert_eq!(back.metrics[0].1.series[0].value, "0.25");
    assert_eq!(back.metrics[0].1.series[1].value, "7");
    assert_eq!(back.metrics[1].0, "second");
    assert_eq!(back.metrics[1].1.help, None);
    assert!(back.metrics[1].1.label_names.is_empty());
    assert_eq!(back.metrics[1].1.series[0].value, "3");
}

#[test]
fn json_serializer_escapes_strings() {
    let doc = obj(vec![
        ("plain", Json::Str("hello".to_string())),
        ("tricky", Json::Str("a\"b\\c\nd\te\r\u{1}".to_string())),
        ("num", Json::Num("2.5".to_string())),
        ("arr", Json::Arr(vec![Json::Null, Json::Bool(true), Json::Bool(false)])),
    ]);
    assert_eq!(
        json_to_string(&doc),
        "{\"plain\":\"hello\",\"tricky\":\"a\\\"b\\\\c\\nd\\te\\r\\u0001\",\
         \"num\":2.5,\"arr\":[null,true,false]}"
    );
}

#[test]
fn obj_get_returns_first_binding() {
    let fields: Vec<(String, Json)> = vec![
        ("a".to_string(), Json::Num("1".to_string())),
        ("b".to_string(), Json::Num("2".to_string())),
        ("a".to_string(), Json::Num("3".to_string())),
    ];
    assert!(matches!(obj_get(&fields, "a"), Some(Json::Num(n)) if n == "1"));
    assert!(obj_get(&fields, "c").is_none());
}

#[test]
fn decode_rejects_malformed_optional_fields() {
    let bad_help = obj(vec![(
        "m",
        obj(vec![("type", Json::Str("gauge".to_string())), ("help", Json::Num("1".to_string()))]),
    )]);
    assert!(matches!(decode(&bad_help), Err(DecodeError::InvalidHelp)));
    let bad_names = obj(vec![(
        "m",
        obj(vec![
            ("type", Json::Str("gauge".to_string())),
            ("label_names", Json::Arr(vec![Json::Num("1".to_string())])),
        ]),
    )]);
    assert!(matches!(decode(&bad_names), Err(DecodeError::InvalidLabelNames)));
    let bad_series = obj(vec![(
        "m",
        obj(vec![("type", Json::Str("gauge".to_string())), ("series", Json::Bool(true))]),
    )]);
    assert!(matches!(decode(&bad_series), Err(DecodeError::InvalidSeries)));
    let bad_values = obj(vec![(
        "m",
        gauge_metric(None, vec![], vec![obj(vec![("label_values", Json::Bool(false))])]),
    )]);
    assert!(matches!(decode(&bad_values), Err(DecodeError::InvalidLabelValues)));
}
