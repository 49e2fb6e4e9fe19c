use jsonnet_exporter::config::{Config, ConfigModule, ConfigModuleTest};
use jsonnet_exporter::engine::regex_match;
use jsonnet_exporter::harness::{run_module_tests, split_lines, ModuleError};
use jsonnet_exporter::module::{process_document_text, Module, ModuleSource, PipelineError, StateError};

const PLACEHOLDER: &str =
    "jsonnet-exporter: Metric help is missing, consider adding a help text to the module config.";

fn inline_module(source: &str) -> Module {
    Module { source: ModuleSource::Inline(source.to_string()) }
}

const REQUESTS_TOTAL_SRC: &str = r#"{
  process(input): {
    requests_total: { "type": "gauge", series: [ { value: 5 } ] },
  },
}"#;

fn requests_total_output() -> String {
    format!(
        "# HELP requests_total {}\n# TYPE requests_total gauge\nrequests_total 5\n",
        PLACEHOLDER
    )
}

#[test]
fn regex_match_yields_groups_and_null_markers() {
    let groups = regex_match("(a)(b)?", "ab a").unwrap();
    assert_eq!(groups.len(), 2);
    assert_eq!(
        groups[0],
        vec![Some("ab".to_string()), Some("a".to_string()), Some("b".to_string())]
    );
    assert_eq!(groups[1][0], Some("a".to_string()));
    assert_eq!(groups[1][1], Some("a".to_string()));
    assert_eq!(groups[1][2], None);
}

#[test]
fn regex_match_rejects_invalid_pattern() {
    assert!(regex_match("(unclosed", "anything").is_err());
}

#[test]
fn inline_module_renders_exposition_end_to_end() {
    let module = inline_module(REQUESTS_TOTAL_SRC);
    let text = module.eval("{\"body\": \"ignored\"}").unwrap();
    assert_eq!(text, requests_total_output());
}

#[test]
fn module_sees_its_input_binding() {
    let module = inline_module(
        r#"{
  process(input): {
    body_len: { "type": "gauge", series: [ { value: std.length(input.body) } ] },
  },
}"#,
    );
    let text = module.eval("{\"body\": \"four\"}").unwrap();
    assert_eq!(
        text,
        format!("# HELP body_len {}\n# TYPE body_len gauge\nbody_len 4\n", PLACEHOLDER)
    );
}

#[test]
fn native_regex_match_is_bound_into_the_engine() {
    let module = inline_module(
        r#"{
  process(input): {
    matches: { "type": "gauge", series: [
      { value: std.length(std.native('regexMatch')('(a)(b)?', 'ab a')) },
    ] },
  },
}"#,
    );
    let text = module.eval("{\"body\": \"\"}").unwrap();
    assert_eq!(
        text,
        format!("# HELP matches {}\n# TYPE matches gauge\nmatches 2\n", PLACEHOLDER)
    );
}

#[test]
fn evaluation_twice_is_byte_identical() {
    // Two independent module instances, same source and input.
    let first = inline_module(REQUESTS_TOTAL_SRC).eval("{\"body\": \"x\"}").unwrap();
    let second = inline_module(REQUESTS_TOTAL_SRC).eval("{\"body\": \"x\"}").unwrap();
    assert_eq!(first, second);
}

#[test]
fn broken_program_reports_eval_error() {
    let module = inline_module("{ process(input): undefined_variable }");
    assert!(matches!(module.eval("{\"body\": \"\"}"), Err(PipelineError::Eval(_))));
}

#[test]
fn non_gauge_output_reports_decode_error() {
    let module = inline_module(
        r#"{ process(input): { m: { "type": "histogram", series: [] } } }"#,
    );
    assert!(matches!(module.eval("{\"body\": \"\"}"), Err(PipelineError::Decode(_))));
}

#[test]
fn configured_test_case_passes_in_harness() {
    let module = inline_module(REQUESTS_TOTAL_SRC);
    let tests = vec![ConfigModuleTest {
        input: "{\"body\": \"ignored\"}".to_string(),
        output: requests_total_output(),
    }];
    let outcomes = run_module_tests(&module, &tests).unwrap();
    assert_eq!(outcomes.len(), 1);
    assert!(outcomes[0].passed);
}

#[test]
fn mismatching_test_case_reports_line_diff_without_failing() {
    let module = inline_module(REQUESTS_TOTAL_SRC);
    let tests = vec![ConfigModuleTest {
        input: "{\"body\": \"ignored\"}".to_string(),
        output: "something else\n".to_string(),
    }];
    let outcomes = run_module_tests(&module, &tests).unwrap();
    assert_eq!(outcomes.len(), 1);
    assert!(!outcomes[0].passed);
    assert_eq!(outcomes[0].expected_lines, vec!["something else".to_string(), String::new()]);
    assert_eq!(outcomes[0].actual_lines.len(), 4);
}

#[test]
fn config_validate_reports_per_module() {
    let config = Config {
        modules: vec![(
            "demo".to_string(),
            ConfigModule {
                jsonnet: Some(REQUESTS_TOTAL_SRC.to_string()),
                jsonnet_path: None,
                tests: Some(vec![ConfigModuleTest {
                    input: "{\"body\": \"ignored\"}".to_string(),
                    output: requests_total_output(),
                }]),
            },
        )],
    };
    let reports = config.validate().unwrap();
    assert_eq!(reports.len(), 1);
    assert_eq!(reports[0].0, "demo");
    assert!(reports[0].1[0].passed);
}

#[test]
fn config_validate_fails_on_ambiguous_source() {
    let config = Config {
        modules: vec![(
            "broken".to_string(),
            ConfigModule {
                jsonnet: Some("{}".to_string()),
                jsonnet_path: Some("also.jsonnet".to_string()),
                tests: None,
            },
        )],
    };
    let failure = config.validate().unwrap_err();
    assert_eq!(failure.module, "broken");
    assert!(matches!(failure.error, ModuleError::BadSource));
}

#[test]
fn split_lines_matches_line_structure() {
    assert_eq!(split_lines(""), vec![String::new()]);
    assert_eq!(split_lines("a"), vec!["a".to_string()]);
    assert_eq!(split_lines("a\nb"), vec!["a".to_string(), "b".to_string()]);
    assert_eq!(
        split_lines("a\n\nb\n"),
        vec!["a".to_string(), String::new(), "b".to_string(), String::new()]
    );
}

#[test]
fn pipeline_reports_parse_and_render_stages() {
    assert!(matches!(process_document_text("not json"), Err(PipelineError::Parse)));
    let module = inline_module(
        r#"{
  process(input): {
    m: { "type": "gauge", label_names: ["a"], series: [ { value: 1 } ] },
  },
}"#,
    );
    assert!(matches!(module.eval("{\"body\": \"\"}"), Err(PipelineError::Render(_))));
}

#[test]
fn config_validate_fails_on_broken_module() {
    let config = Config {
        modules: vec![(
            "broken".to_string(),
            ConfigModule {
                jsonnet: Some("{ process(input): no_such_thing }".to_string()),
                jsonnet_path: None,
                tests: Some(vec![ConfigModuleTest {
                    input: "{\"body\": \"\"}".to_string(),
                    output: String::new(),
                }]),
            },
        )],
    };
    let failure = config.validate().unwrap_err();
    assert_eq!(failure.module, "broken");
    assert!(matches!(failure.error, ModuleError::Eval(_)));
}

#[test]
fn module_state_loads_the_program() {
    let good = ConfigModule {
        jsonnet: Some(REQUESTS_TOTAL_SRC.to_string()),
        jsonnet_path: None,
        tests: None,
    };
    assert!(good.state().is_ok());
    let unparsable = ConfigModule {
        jsonnet: Some("local x =".to_string()),
        jsonnet_path: None,
        tests: None,
    };
    assert!(matches!(unparsable.state(), Err(StateError::Load(_))));
    let no_such_file = ConfigModule {
        jsonnet: None,
        jsonnet_path: Some("surely/not/here.jsonnet".to_string()),
        tests: None,
    };
    assert!(matches!(no_such_file.state(), Err(StateError::Load(_))));
}

#[test]
fn config_validate_fails_on_unparsable_module_without_tests() {
    // A program that does not load fails validation even with no tests
    // configured.
    let config = Config {
        modules: vec![(
            "unparsable".to_string(),
            ConfigModule {
                jsonnet: Some("{ process(input):".to_string()),
                jsonnet_path: None,
                tests: None,
            },
        )],
    };
    let failure = config.validate().unwrap_err();
    assert_eq!(failure.module, "unparsable");
    assert!(matches!(failure.error, ModuleError::Load(_)));
}

#[test]
fn empty_input_is_an_evaluation_error_not_a_panic() {
    let module = inline_module(REQUESTS_TOTAL_SRC);
    assert!(matches!(module.eval(""), Err(PipelineError::Eval(_))));
}
