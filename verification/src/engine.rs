//! The transformation-engine adapter and the other boundaries to outside
//! crates: evaluating a jsonnet program against one input, the host-side
//! regex-capture function bound into the evaluation environment as
//! `regexMatch`, parsing JSON text into the document model, and target-URI
//! validation.
//!
//! Every outside call sits behind a trusted item whose contract states what
//! the call's own source promises; everything around the calls is verified.

use vstd::prelude::*;
use crate::json::Json;

verus! {

/// The groups captured by a regex over a subject: one inner run per
/// non-overlapping match, holding for each capture group (group 0 first)
/// the captured text, or nothing where the group did not participate.
/// `None` stands for an invalid pattern. The result is a function of the
/// pattern and subject alone.
pub uninterp spec fn regex_groups(pattern: Seq<char>, subject: Seq<char>) -> Option<
    Seq<Seq<Option<Seq<char>>>>,
>;

/// Relies on `regex::Regex::new` and `Regex::captures_iter`: compiling a
/// pattern fails exactly for invalid patterns, and capturing walks the
/// non-overlapping matches in order, each group yielding its text or
/// nothing; both depend on the pattern and subject alone.
#[verifier::external_body]
fn regex_exec(pattern: &str, subject: &str) -> (r: Option<Vec<Vec<Option<String>>>>)
    ensures
        r.deep_view() == regex_groups(pattern@, subject@),
{
    match regex::Regex::new(pattern) {
        Err(_) => None,
        Ok(re) => Some(
            re.captures_iter(subject).map(
                |c| c.iter().map(|m| m.map(|g| g.as_str().to_owned())).collect(),
            ).collect(),
        ),
    }
}

/// The diagnostic returned for a pattern that does not compile.
pub open spec fn spec_bad_pattern_text() -> Seq<char> {
    "regexMatch: invalid regular expression pattern"@
}

/// The host side of the `regexMatch` native function: all capture groups
/// of every non-overlapping match of `pattern` in `subject`, or a fatal
/// diagnostic for an invalid pattern — never a silent empty result.
pub fn regex_match(pattern: &str, subject: &str) -> (r: Result<Vec<Vec<Option<String>>>, String>)
    ensures
        r is Ok <==> regex_groups(pattern@, subject@) is Some,
        r matches Ok(v) ==> Some(v.deep_view()) == regex_groups(pattern@, subject@),
        r matches Err(e) ==> e@ == spec_bad_pattern_text(),
{
    match regex_exec(pattern, subject) {
        Some(groups) => Ok(groups),
        None => Err("regexMatch: invalid regular expression pattern".to_owned()),
    }
}

#[verifier::external_type_specification]
#[verifier::external_body]
pub struct ExVal(jrsonnet_evaluator::Val);

#[verifier::external_type_specification]
#[verifier::external_body]
pub struct ExNativeCallback(jrsonnet_evaluator::native::NativeCallback);

/// Relies on `jrsonnet_evaluator::Val`: builds the engine value mirroring
/// the captured groups, with a null for a group that did not participate.
#[verifier::external_body]
fn groups_to_val(groups: Vec<Vec<Option<String>>>) -> (r: jrsonnet_evaluator::Val)
{
    let matches: Vec<jrsonnet_evaluator::Val> = groups.into_iter().map(|g| {
        let inner: Vec<jrsonnet_evaluator::Val> = g.into_iter().map(|m| match m {
            Some(s) => jrsonnet_evaluator::Val::Str(s.into()),
            None => jrsonnet_evaluator::Val::Null,
        }).collect();
        jrsonnet_evaluator::Val::Arr(inner.into())
    }).collect();
    jrsonnet_evaluator::Val::Arr(matches.into())
}

/// Relies on `jrsonnet_evaluator::native::NativeCallback::new`: packages
/// the two-argument `regexMatch` native function; its handler only calls
/// the verified [`regex_match`] and converts the outcome.
#[verifier::external_body]
fn regex_callback() -> (r: std::rc::Rc<jrsonnet_evaluator::native::NativeCallback>)
{
    let params = jrsonnet_parser::ParamsDesc(std::rc::Rc::new(vec![
        jrsonnet_parser::Param("regex".into(), None),
        jrsonnet_parser::Param("string".into(), None),
    ]));
    std::rc::Rc::new(jrsonnet_evaluator::native::NativeCallback::new(params, |_caller, args| {
        match (&args[0], &args[1]) {
            (jrsonnet_evaluator::Val::Str(p), jrsonnet_evaluator::Val::Str(s)) => {
                match regex_match(p, s) {
                    Ok(groups) => Ok(groups_to_val(groups)),
                    Err(e) => Err(jrsonnet_evaluator::error::Error::RuntimeError(e.into()).into()),
                }
            },
            (_, _) => Err(jrsonnet_evaluator::error::Error::RuntimeError("regexMatch: expected two string arguments".into()).into()),
        }
    }))
}

/// What evaluating an inline program against one input yields: the
/// manifested JSON text of `process(input)`, or the engine's diagnostic.
/// The engine is deterministic here: the program is self-contained, the
/// standard library and the `regexMatch` native function are fixed, and no
/// import can reach the file system, so the outcome is a function of the
/// program source and the input alone.
pub uninterp spec fn inline_eval(source: Seq<char>, input: Seq<char>) -> Result<
    Seq<char>,
    Seq<char>,
>;

/// Relies on `jrsonnet_evaluator::EvaluationState`: `add_ext_code` binds
/// the `input` external variable, `evaluate_snippet_raw` evaluates the
/// wrapped program's `process` entry point, and `manifest` renders the
/// resulting value as JSON text (the default manifest format). Imports are
/// rejected by the default resolver, so the result depends on the source
/// and input alone. Failures are formatted by the error's own `Display`
/// (the trace formatter is not total: it underflows on an empty source
/// file, so it is never called here).
#[verifier::external_body]
fn jsonnet_eval_inline(source: &str, input: &str) -> (r: Result<String, String>)
    ensures
        match r {
            Ok(t) => inline_eval(source@, input@) == Ok::<Seq<char>, Seq<char>>(t@),
            Err(e) => inline_eval(source@, input@) == Err::<Seq<char>, Seq<char>>(e@),
        },
{
    let st = jrsonnet_evaluator::EvaluationState::default();
    st.with_stdlib();
    st.add_native("regexMatch".into(), regex_callback());
    let code = format!("local s = (\n{}\n);\ns.process(std.extVar('input'))", source);
    let path = std::rc::Rc::new(std::path::PathBuf::from("eval.jsonnet"));
    let r = st.add_ext_code("input".into(), input.into())
        .and_then(|_| st.evaluate_snippet_raw(path, code.into()))
        .and_then(|v| st.manifest(v));
    match r {
        Ok(t) => Ok(t.to_string()),
        Err(e) => Err(format!("{}", e.error())),
    }
}

/// Relies on `jrsonnet_evaluator::EvaluationState` with a
/// `FileImportResolver`: like [`jsonnet_eval_inline`], but the program is
/// imported from its file path and may import files relative to it, so the
/// outcome also depends on what is on disk — nothing more is assumed of it.
/// Failures are formatted by the error's own `Display`, as above.
#[verifier::external_body]
fn jsonnet_eval_file(path: &str, input: &str) -> (r: Result<String, String>)
{
    let st = jrsonnet_evaluator::EvaluationState::default();
    st.with_stdlib();
    st.add_native("regexMatch".into(), regex_callback());
    let resolver = jrsonnet_evaluator::FileImportResolver { library_paths: vec![] };
    st.set_import_resolver(Box::new(resolver));
    let code = format!("local s = import '{}';\ns.process(std.extVar('input'))", path);
    let snippet = std::rc::Rc::new(std::path::PathBuf::from("eval.jsonnet"));
    let r = st.add_ext_code("input".into(), input.into())
        .and_then(|_| st.evaluate_snippet_raw(snippet, code.into()))
        .and_then(|v| st.manifest(v));
    match r {
        Ok(t) => Ok(t.to_string()),
        Err(e) => Err(format!("{}", e.error())),
    }
}

/// Whether an inline program's text loads: the engine parses it under its
/// synthetic identity, and the outcome — success, or the diagnostic — is a
/// function of the source text alone.
pub uninterp spec fn inline_load(source: Seq<char>) -> Result<(), Seq<char>>;

/// Relies on `jrsonnet_evaluator::EvaluationState::add_file`: parses the
/// program text, failing exactly on text that is not a jsonnet program; a
/// function of the source alone. Failures are formatted by the error's own
/// `Display` (the trace formatter underflows on an empty source).
#[verifier::external_body]
fn jsonnet_load_inline(source: &str) -> (r: Result<(), String>)
    ensures
        match r {
            Ok(_) => inline_load(source@) == Ok::<(), Seq<char>>(()),
            Err(e) => inline_load(source@) == Err::<(), Seq<char>>(e@),
        },
{
    let st = jrsonnet_evaluator::EvaluationState::default();
    let path = std::rc::Rc::new(std::path::PathBuf::from("inline.jsonnet"));
    match st.add_file(path, source.into()) {
        Ok(_) => Ok(()),
        Err(e) => Err(format!("{}", e.error())),
    }
}

/// Relies on `EvaluationState::resolve_file`, `load_file_contents` and
/// `add_file` with a `FileImportResolver`: resolves the program's path,
/// reads the file and parses it. The outcome depends on what is on disk;
/// nothing more is assumed of it.
#[verifier::external_body]
fn jsonnet_load_file(path: &str) -> (r: Result<(), String>)
{
    let st = jrsonnet_evaluator::EvaluationState::default();
    let resolver = jrsonnet_evaluator::FileImportResolver { library_paths: vec![] };
    st.set_import_resolver(Box::new(resolver));
    let cwd = std::path::PathBuf::from(".");
    let p = std::path::PathBuf::from(path);
    let r = st.resolve_file(&cwd, &p)
        .and_then(|rp| st.load_file_contents(&rp))
        .and_then(|code| st.add_file(std::rc::Rc::new(p), code));
    match r {
        Ok(_) => Ok(()),
        Err(e) => Err(format!("{}", e.error())),
    }
}

/// Checks that an inline program's text loads, returning the engine's
/// diagnostic where it does not.
pub fn load_inline_program(source: &str) -> (r: Result<(), String>)
    ensures
        match r {
            Ok(_) => inline_load(source@) == Ok::<(), Seq<char>>(()),
            Err(e) => inline_load(source@) == Err::<(), Seq<char>>(e@),
        },
{
    jsonnet_load_inline(source)
}

/// Checks that a program file resolves, reads and loads. The outcome
/// depends on the file system; nothing more is promised of it.
pub fn load_file_program(path: &str) -> (r: Result<(), String>) {
    jsonnet_load_file(path)
}

/// Evaluates an inline program's `process` entry point against one input,
/// with a fresh engine and a fresh external-variable binding.
pub fn eval_inline_program(source: &str, input: &str) -> (r: Result<String, String>)
    ensures
        r matches Ok(t) ==> inline_eval(source@, input@) == Ok::<Seq<char>, Seq<char>>(t@),
        r matches Err(e) ==> inline_eval(source@, input@) == Err::<Seq<char>, Seq<char>>(e@),
{
    jsonnet_eval_inline(source, input)
}

/// Evaluates a program file's `process` entry point against one input,
/// with a fresh engine and a fresh external-variable binding. The outcome
/// depends on the file system; nothing more is promised of it.
pub fn eval_file_program(path: &str, input: &str) -> (r: Result<String, String>) {
    jsonnet_eval_file(path, input)
}

#[verifier::external_type_specification]
#[verifier::external_body]
pub struct ExValue(serde_json::Value);

/// The document model of a JSON text, or nothing for text that is not
/// valid JSON; a function of the text alone.
pub uninterp spec fn parsed_doc(s: Seq<char>) -> Option<Json>;

/// Relies on `serde_json::Value`: carries each JSON node into the document
/// model one for one, numbers as their decimal text, object fields in the
/// order of `serde_json`'s map — sorted by key.
#[verifier::external_body]
fn json_of_value(v: &serde_json::Value) -> (r: Json)
{
    match v {
        serde_json::Value::Null => Json::Null,
        serde_json::Value::Bool(b) => Json::Bool(*b),
        serde_json::Value::Number(n) => Json::Num(n.to_string()),
        serde_json::Value::String(s) => Json::Str(s.clone()),
        serde_json::Value::Array(a) => Json::Arr(a.iter().map(json_of_value).collect()),
        serde_json::Value::Object(o) => Json::Obj(
            o.iter().map(|(k, x)| (k.clone(), json_of_value(x))).collect(),
        ),
    }
}

/// Relies on `serde_json::from_str`: parses JSON text, failing exactly on
/// text that is not valid JSON; the parse depends on the text alone. A
/// parsed object's keys are unique: `serde_json`'s object is a map.
#[verifier::external_body]
pub(crate) fn parse_document(s: &str) -> (r: Option<Json>)
    ensures
        r == parsed_doc(s@),
        match r {
            Some(j) => crate::json::top_keys_unique(j),
            None => true,
        },
{
    match serde_json::from_str::<serde_json::Value>(s) {
        Ok(v) => Some(json_of_value(&v)),
        Err(_) => None,
    }
}

/// Whether a target string parses as an HTTP URI; a function of the string
/// alone.
pub uninterp spec fn uri_ok(s: Seq<char>) -> bool;

/// Relies on `hyper::Uri`'s `FromStr`: parsing succeeds exactly for
/// well-formed URIs and depends on the string alone.
#[verifier::external_body]
pub(crate) fn uri_is_valid(s: &str) -> (r: bool)
    ensures
        r == uri_ok(s@),
{
    s.parse::<hyper::Uri>().is_ok()
}

} // verus!
