//! The probe workflow's decisions: resolving the query parameters and the
//! module before anything is fetched, and building the runtime input from
//! a fetched response body. The fetch itself is the caller's I/O; every
//! decision around it is made here.

use vstd::prelude::*;
use crate::config::Config;
use crate::config::ConfigV;
use crate::config::ConfigModule;
use crate::config::ConfigModuleV;
use crate::config::spec_lookup;
use crate::engine::uri_ok;
use crate::engine::uri_is_valid;
use crate::engine::parsed_doc;
use crate::engine::parse_document;
use crate::json::Json;
use crate::json::json_quote;
use crate::json::spec_json_text;
use crate::json::json_to_string;
use crate::json::str_eq;

verus! {

/// Why a probe request failed before or while building its input.
#[derive(Debug)]
pub enum ProbeError {
    /// A required query parameter is absent; the payload names it.
    MissingParameter(String),
    /// No module of the given name is configured.
    ModuleNotFound(String),
    /// The target does not parse as a URI.
    InvalidTargetUrl(String),
    /// The transport failed while fetching the target; the payload is its
    /// diagnostic text.
    TargetFetchFailed(String),
    /// The target declared a JSON body that does not parse.
    TargetJSONParseFailed,
}

/// Mathematical model of a probe error.
pub enum ProbeErrorV {
    MissingParameter(Seq<char>),
    ModuleNotFound(Seq<char>),
    InvalidTargetUrl(Seq<char>),
    TargetFetchFailed(Seq<char>),
    TargetJSONParseFailed,
}

impl DeepView for ProbeError {
    type V = ProbeErrorV;

    open spec fn deep_view(&self) -> ProbeErrorV {
        match self {
            ProbeError::MissingParameter(s) => ProbeErrorV::MissingParameter(s@),
            ProbeError::ModuleNotFound(s) => ProbeErrorV::ModuleNotFound(s@),
            ProbeError::InvalidTargetUrl(s) => ProbeErrorV::InvalidTargetUrl(s@),
            ProbeError::TargetFetchFailed(s) => ProbeErrorV::TargetFetchFailed(s@),
            ProbeError::TargetJSONParseFailed => ProbeErrorV::TargetJSONParseFailed,
        }
    }
}

/// The first value bound to `key` among the query parameters.
pub open spec fn spec_param(params: Seq<(Seq<char>, Seq<char>)>, key: Seq<char>) -> Option<
    Seq<char>,
>
    decreases params.len(),
{
    if params.len() == 0 {
        None
    } else if params[0].0 == key {
        Some(params[0].1)
    } else {
        spec_param(params.skip(1), key)
    }
}

/// Looks a query parameter up by name.
pub fn param_get<'a>(params: &'a Vec<(String, String)>, key: &str) -> (r: Option<&'a String>)
    ensures
        match r {
            Some(v) => spec_param(params.deep_view(), key@) == Some(v@),
            None => spec_param(params.deep_view(), key@) is None,
        },
{
    let ghost pv = params.deep_view();
    let n = params.len();
    let mut i: usize = 0;
    proof {
        assert(pv.skip(0) =~= pv);
    }
    while i < n
        invariant
            0 <= i <= n,
            n == params@.len(),
            pv == params.deep_view(),
            spec_param(pv, key@) == spec_param(pv.skip(i as int), key@),
        decreases n - i,
    {
        proof {
            assert(pv.skip(i as int)[0] == pv[i as int]);
            assert(pv.skip(i as int).skip(1) =~= pv.skip(i as int + 1));
            assert(pv[i as int] == (params@[i as int].0@, params@[i as int].1@));
        }
        if str_eq(params[i].0.as_str(), key) {
            return Some(&params[i].1);
        }
        i = i + 1;
    }
    proof {
        assert(pv.skip(n as int) =~= Seq::<(Seq<char>, Seq<char>)>::empty());
    }
    None
}

/// What the probe decides before any fetch: the module to run and the
/// target to fetch, or the first failure in the order the workflow checks
/// — both parameters must be present before the module is resolved, then
/// the target must parse (missing `module`, missing `target`, unknown
/// module, malformed target).
pub open spec fn spec_probe_plan(params: Seq<(Seq<char>, Seq<char>)>, cfg: ConfigV) -> Result<
    (ConfigModuleV, Seq<char>),
    ProbeErrorV,
> {
    match spec_param(params, "module"@) {
        None => Err(ProbeErrorV::MissingParameter("module"@)),
        Some(name) => match spec_param(params, "target"@) {
            None => Err(ProbeErrorV::MissingParameter("target"@)),
            Some(t) => match spec_lookup(cfg, name) {
                None => Err(ProbeErrorV::ModuleNotFound(name)),
                Some(m) => if uri_ok(t) {
                    Ok((m, t))
                } else {
                    Err(ProbeErrorV::InvalidTargetUrl(t))
                },
            },
        },
    }
}

/// Resolves a probe request's parameters against the registry: the module
/// and target to use, or the failure — decided entirely before any fetch.
pub fn probe_plan<'a>(params: &Vec<(String, String)>, config: &'a Config) -> (r: Result<
    (&'a ConfigModule, String),
    ProbeError,
>)
    ensures
        match r {
            Ok(p) => spec_probe_plan(params.deep_view(), config@) == Ok::<
                (ConfigModuleV, Seq<char>),
                ProbeErrorV,
            >((p.0.deep_view(), p.1@)),
            Err(e) => spec_probe_plan(params.deep_view(), config@) == Err::<
                (ConfigModuleV, Seq<char>),
                ProbeErrorV,
            >(e.deep_view()),
        },
{
    let module_name = match param_get(params, "module") {
        Some(n) => n,
        None => {
            return Err(ProbeError::MissingParameter("module".to_owned()));
        },
    };
    let target = match param_get(params, "target") {
        Some(t) => t,
        None => {
            return Err(ProbeError::MissingParameter("target".to_owned()));
        },
    };
    let module = match config.lookup(module_name.as_str()) {
        Some(m) => m,
        None => {
            return Err(ProbeError::ModuleNotFound(module_name.clone()));
        },
    };
    if uri_is_valid(target.as_str()) {
        Ok((module, target.clone()))
    } else {
        Err(ProbeError::InvalidTargetUrl(target.clone()))
    }
}

/// The JSON text of the runtime-input envelope around a body document.
pub open spec fn spec_input_text(body: Json) -> Seq<char> {
    seq!['{'] + json_quote("body"@) + seq![':'] + spec_json_text(body) + seq!['}']
}

/// The runtime input a response body becomes: a body declared as JSON is
/// parsed (a parse failure is the probe error), any other body is carried
/// as one JSON string; either way the body is wrapped in the input
/// envelope and serialized.
pub open spec fn spec_build_input(body_is_json: bool, body: Seq<char>) -> Result<
    Seq<char>,
    ProbeErrorV,
> {
    if body_is_json {
        match parsed_doc(body) {
            None => Err(ProbeErrorV::TargetJSONParseFailed),
            Some(doc) => Ok(spec_input_text(doc)),
        }
    } else {
        Ok(seq!['{'] + json_quote("body"@) + seq![':'] + json_quote(body) + seq!['}'])
    }
}

/// Serializes the runtime-input envelope around a body document.
fn input_text(body: Json) -> (r: String)
    ensures
        r@ == spec_input_text(body),
{
    let ghost bv = body;
    let mut fields: Vec<(String, Json)> = Vec::new();
    fields.push(("body".to_owned(), body));
    let doc = Json::Obj(fields);
    let out = json_to_string(&doc);
    proof {
        assert(out@ =~= spec_input_text(bv));
    }
    out
}

/// Builds the JSON-encoded runtime input from a fetched body.
pub fn build_input(body_is_json: bool, body: &str) -> (r: Result<String, ProbeError>)
    ensures
        match r {
            Ok(t) => spec_build_input(body_is_json, body@) == Ok::<Seq<char>, ProbeErrorV>(t@),
            Err(e) => spec_build_input(body_is_json, body@) == Err::<Seq<char>, ProbeErrorV>(
                e.deep_view(),
            ),
        },
{
    if body_is_json {
        match parse_document(body) {
            None => Err(ProbeError::TargetJSONParseFailed),
            Some(doc) => Ok(input_text(doc)),
        }
    } else {
        Ok(input_text(Json::Str(body.to_owned())))
    }
}

/// Whether a response declares exactly the JSON content type.
pub fn content_type_is_json(header_value: &str) -> (r: bool)
    ensures
        r == (header_value@ == "application/json"@),
{
    str_eq(header_value, "application/json")
}

} // verus!
