use jsonnet_exporter::config::{Config, ConfigError, ConfigModule};
use jsonnet_exporter::json::Json;
use jsonnet_exporter::probe::{build_input, content_type_is_json, probe_plan, ProbeError};
use jsonnet_exporter::walk::leaf_objects;

fn demo_config() -> Config {
    Config {
        modules: vec![(
            "demo".to_string(),
            ConfigModule {
                jsonnet: Some("{ process(input): {} }".to_string()),
                jsonnet_path: None,
                tests: None,
            },
        )],
    }
}

fn params(pairs: Vec<(&str, &str)>) -> Vec<(String, String)> {
    pairs.into_iter().map(|(k, v)| (k.to_string(), v.to_string())).collect()
}

#[test]
fn unknown_module_is_rejected_before_any_fetch() {
    // The plan is computed from the parameters and the registry alone; an
    // unknown module never reaches the fetch stage.
    let config = demo_config();
    let r = probe_plan(&params(vec![("module", "missing"), ("target", "http://x")]), &config);
    assert!(matches!(r, Err(ProbeError::ModuleNotFound(name)) if name == "missing"));
}

#[test]
fn missing_parameters_are_named() {
    let config = demo_config();
    let r = probe_plan(&params(vec![("target", "http://x")]), &config);
    assert!(matches!(r, Err(ProbeError::MissingParameter(p)) if p == "module"));
    let r = probe_plan(&params(vec![("module", "demo")]), &config);
    assert!(matches!(r, Err(ProbeError::MissingParameter(p)) if p == "target"));
}

#[test]
fn malformed_target_is_rejected() {
    let config = demo_config();
    let r = probe_plan(
        &params(vec![("module", "demo"), ("target", "http://exa mple.com")]),
        &config,
    );
    assert!(matches!(r, Err(ProbeError::InvalidTargetUrl(_))));
}

#[test]
fn resolvable_module_and_target_yield_a_plan() {
    let config = demo_config();
    let (module, target) = probe_plan(
        &params(vec![("module", "demo"), ("target", "http://example.com/status")]),
        &config,
    )
    .unwrap();
    assert!(module.jsonnet.is_some());
    assert_eq!(target, "http://example.com/status");
}

#[test]
fn json_body_is_parsed_into_the_envelope() {
    let input = build_input(true, "{\"a\": 1, \"b\": [true, null]}").unwrap();
    assert_eq!(input, "{\"body\":{\"a\":1,\"b\":[true,null]}}");
}

#[test]
fn invalid_json_body_is_the_parse_error() {
    assert!(matches!(
        build_input(true, "{not json"),
        Err(ProbeError::TargetJSONParseFailed)
    ));
}

#[test]
fn non_json_body_is_wrapped_as_one_string() {
    let input = build_input(false, "plain \"text\"\nwith lines").unwrap();
    assert_eq!(input, "{\"body\":\"plain \\\"text\\\"\\nwith lines\"}");
}

#[test]
fn content_type_must_match_exactly() {
    assert!(content_type_is_json("application/json"));
    assert!(!content_type_is_json("application/json; charset=utf-8"));
    assert!(!content_type_is_json("text/plain"));
}

#[test]
fn validate_sources_accepts_exactly_one_source() {
    assert!(demo_config().validate_sources().is_ok());
    let both = Config {
        modules: vec![(
            "dup".to_string(),
            ConfigModule {
                jsonnet: Some("{}".to_string()),
                jsonnet_path: Some("p.jsonnet".to_string()),
                tests: None,
            },
        )],
    };
    let ConfigError::AmbiguousOrMissingSource { module } = both.validate_sources().unwrap_err();
    assert_eq!(module, "dup");
    let neither = Config {
        modules: vec![(
            "empty".to_string(),
            ConfigModule { jsonnet: None, jsonnet_path: None, tests: None },
        )],
    };
    assert!(neither.validate_sources().is_err());
}

#[test]
fn lookup_finds_configured_modules() {
    let config = demo_config();
    assert!(config.lookup("demo").is_some());
    assert!(config.lookup("other").is_none());
}

#[test]
fn leaf_objects_walks_past_the_labels_key() {
    // {"top": {"labels": {"x": {}}, "v": 1}, "list": [{"deep": {"w": 2}}]}
    let leafish = Json::Obj(vec![
        (
            "labels".to_string(),
            Json::Obj(vec![("x".to_string(), Json::Obj(vec![]))]),
        ),
        ("v".to_string(), Json::Num("1".to_string())),
    ]);
    let inner = Json::Obj(vec![("w".to_string(), Json::Num("2".to_string()))]);
    let deep = Json::Obj(vec![("deep".to_string(), inner)]);
    let doc = Json::Obj(vec![
        ("top".to_string(), leafish),
        ("list".to_string(), Json::Arr(vec![deep])),
    ]);
    let leaves = leaf_objects(&doc);
    // `top` is a leaf (its only non-labels value is a scalar), `{"w": 2}` is
    // a leaf, and its parent is not.
    assert_eq!(leaves.len(), 2);
    assert!(matches!(leaves[0], Json::Obj(f) if f.len() == 2));
    assert!(matches!(leaves[1], Json::Obj(f) if f.len() == 1));
}

#[test]
fn both_parameters_come_before_module_resolution() {
    // A missing target is reported even when the module is also unknown:
    // the workflow parses both parameters before resolving the module.
    let config = demo_config();
    let r = probe_plan(&params(vec![("module", "missing")]), &config);
    assert!(matches!(r, Err(ProbeError::MissingParameter(p)) if p == "target"));
}
