//! A runtime module: a program bound to its source identity, evaluated
//! against one input by composing the engine adapter, the manifest decoder
//! and the exposition renderer.

use vstd::prelude::*;
use crate::config::ConfigModule;
use crate::config::ConfigModuleV;
use crate::config::spec_source_ok;
use crate::decode::DecodeError;
use crate::decode::decode;
use crate::decode::spec_decode;
use crate::engine::inline_eval;
use crate::engine::inline_load;
use crate::engine::parsed_doc;
use crate::engine::parse_document;
use crate::engine::eval_inline_program;
use crate::engine::eval_file_program;
use crate::engine::load_inline_program;
use crate::engine::load_file_program;
use crate::render::RenderError;
use crate::render::render;
use crate::render::spec_render;

verus! {

/// Where a module's program comes from: inline text, or a file path that
/// also serves as the program's import identity.
pub enum ModuleSource {
    Inline(String),
    Path(String),
}

/// Mathematical model of a module source.
pub enum ModuleSourceV {
    Inline(Seq<char>),
    Path(Seq<char>),
}

impl DeepView for ModuleSource {
    type V = ModuleSourceV;

    open spec fn deep_view(&self) -> ModuleSourceV {
        match self {
            ModuleSource::Inline(s) => ModuleSourceV::Inline(s@),
            ModuleSource::Path(p) => ModuleSourceV::Path(p@),
        }
    }
}

/// A ready-to-evaluate module.
pub struct Module {
    pub source: ModuleSource,
}

/// Which pipeline stage failed while evaluating a module.
#[derive(Debug)]
pub enum PipelineError {
    /// The engine failed to load or evaluate the program; the payload is
    /// its diagnostic text.
    Eval(String),
    /// The engine's output was not a JSON document.
    Parse,
    /// The document violated the metric schema.
    Decode(DecodeError),
    /// The decoded manifest failed to render.
    Render(RenderError),
}

/// Mathematical model of a pipeline error.
pub enum PipelineErrorV {
    Eval(Seq<char>),
    Parse,
    Decode(DecodeError),
    Render(RenderError),
}

impl DeepView for PipelineError {
    type V = PipelineErrorV;

    open spec fn deep_view(&self) -> PipelineErrorV {
        match self {
            PipelineError::Eval(e) => PipelineErrorV::Eval(e@),
            PipelineError::Parse => PipelineErrorV::Parse,
            PipelineError::Decode(e) => PipelineErrorV::Decode(*e),
            PipelineError::Render(e) => PipelineErrorV::Render(*e),
        }
    }
}

/// What becomes of an engine outcome once it is parsed, decoded and
/// rendered: the exposition text, or the first stage that failed.
pub open spec fn spec_process_output(out: Result<Seq<char>, Seq<char>>) -> Result<
    Seq<char>,
    PipelineErrorV,
> {
    match out {
        Err(e) => Err(PipelineErrorV::Eval(e)),
        Ok(text) => match parsed_doc(text) {
            None => Err(PipelineErrorV::Parse),
            Some(doc) => match spec_decode(doc) {
                Err(e) => Err(PipelineErrorV::Decode(e)),
                Ok(m) => match spec_render(m) {
                    Err(e) => Err(PipelineErrorV::Render(e)),
                    Ok(t) => Ok(t),
                },
            },
        },
    }
}

/// The full pipeline over an inline program: engine evaluation, then
/// parsing, decoding and rendering.
pub open spec fn spec_eval_inline_module(source: Seq<char>, input: Seq<char>) -> Result<
    Seq<char>,
    PipelineErrorV,
> {
    spec_process_output(inline_eval(source, input))
}

/// An executable result agrees with a modeled one.
pub open spec fn spec_result_matches(
    r: Result<String, PipelineError>,
    s: Result<Seq<char>, PipelineErrorV>,
) -> bool {
    match r {
        Ok(t) => s == Ok::<Seq<char>, PipelineErrorV>(t@),
        Err(e) => s == Err::<Seq<char>, PipelineErrorV>(e.deep_view()),
    }
}

/// Parses, decodes and renders one engine output, whatever the engine
/// returned.
pub fn process_document_text(text: &str) -> (r: Result<String, PipelineError>)
    ensures
        spec_result_matches(r, spec_process_output(Ok(text@))),
{
    match parse_document(text) {
        None => Err(PipelineError::Parse),
        Some(doc) => match decode(&doc) {
            Err(e) => Err(PipelineError::Decode(e)),
            Ok(m) => match render(&m) {
                Err(e) => Err(PipelineError::Render(e)),
                Ok(t) => Ok(t),
            },
        },
    }
}

impl Module {
    /// Evaluates the module against one JSON-encoded input, yielding
    /// exposition text. For an inline program the outcome is exactly the
    /// modeled pipeline; for a file program it is the same pipeline over
    /// whatever the engine returned.
    pub fn eval(&self, input: &str) -> (r: Result<String, PipelineError>)
        ensures
            self.source matches ModuleSource::Inline(s) ==> spec_result_matches(
                r,
                spec_eval_inline_module(s@, input@),
            ),
            self.source matches ModuleSource::Path(p) ==> exists|o: Result<Seq<char>, Seq<char>>|
                spec_result_matches(r, #[trigger] spec_process_output(o)),
    {
        match &self.source {
            ModuleSource::Inline(s) => match eval_inline_program(s.as_str(), input) {
                Err(e) => Err(PipelineError::Eval(e)),
                Ok(text) => {
                    let r = process_document_text(text.as_str());
                    proof {
                        assert(spec_result_matches(r, spec_process_output(Ok(text@))));
                    }
                    r
                },
            },
            ModuleSource::Path(p) => match eval_file_program(p.as_str(), input) {
                Err(e) => {
                    let r = Err(PipelineError::Eval(e));
                    proof {
                        assert(spec_result_matches(r, spec_process_output(
                            Err::<Seq<char>, Seq<char>>(e@),
                        )));
                    }
                    r
                },
                Ok(text) => {
                    let r = process_document_text(text.as_str());
                    proof {
                        assert(spec_result_matches(r, spec_process_output(
                            Ok::<Seq<char>, Seq<char>>(text@),
                        )));
                    }
                    r
                },
            },
        }
    }
}

/// The module a well-formed declaration builds.
pub open spec fn spec_module_of(m: ConfigModuleV) -> ModuleSourceV {
    match m.jsonnet {
        Some(s) => ModuleSourceV::Inline(s),
        None => ModuleSourceV::Path(m.jsonnet_path.unwrap()),
    }
}

/// Why a declaration could not be built into a runtime module.
#[derive(Debug)]
pub enum StateError {
    /// The declaration names both program sources or neither.
    AmbiguousOrMissingSource,
    /// The program failed to load — unresolvable file, unreadable file, or
    /// text that does not parse; the payload is the engine's diagnostic.
    Load(String),
}

impl ConfigModule {
    /// Builds the runtime module this declaration names, loading its
    /// program: inline text is parsed by the engine, a file path is
    /// resolved, read and parsed. Declaring both sources or neither, or a
    /// program that fails to load, is the error.
    pub fn state(&self) -> (r: Result<Module, StateError>)
        ensures
            r matches Ok(m) ==> spec_source_ok(self.deep_view()) && m.source.deep_view()
                == spec_module_of(self.deep_view()),
            self.deep_view().jsonnet matches Some(src) ==> (r is Ok <==> (spec_source_ok(
                self.deep_view(),
            ) && inline_load(src) is Ok)),
            r matches Err(e) ==> match e {
                StateError::AmbiguousOrMissingSource => !spec_source_ok(self.deep_view()),
                StateError::Load(msg) => spec_source_ok(self.deep_view()) && (
                self.deep_view().jsonnet matches Some(src) ==> inline_load(src) == Err::<
                    (),
                    Seq<char>,
                >(msg@)),
            },
    {
        match (&self.jsonnet, &self.jsonnet_path) {
            (Some(s), None) => match load_inline_program(s.as_str()) {
                Ok(_) => Ok(Module { source: ModuleSource::Inline(s.clone()) }),
                Err(msg) => Err(StateError::Load(msg)),
            },
            (None, Some(p)) => match load_file_program(p.as_str()) {
                Ok(_) => Ok(Module { source: ModuleSource::Path(p.clone()) }),
                Err(msg) => Err(StateError::Load(msg)),
            },
            _ => Err(StateError::AmbiguousOrMissingSource),
        }
    }
}

/// Law: module evaluation is deterministic for inline programs — two
/// independent evaluations of one source against one input are modeled by
/// one outcome, so their exposition texts are identical byte for byte.
pub proof fn lemma_eval_idempotent(
    source1: Seq<char>,
    input1: Seq<char>,
    source2: Seq<char>,
    input2: Seq<char>,
)
    requires
        source1 == source2,
        input1 == input2,
    ensures
        spec_eval_inline_module(source1, input1) == spec_eval_inline_module(source2, input2),
{
}

} // verus!
