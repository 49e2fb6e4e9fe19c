//! The validation harness: runs each module's configured test cases at
//! load time, comparing rendered exposition text byte for byte against the
//! expected text and reporting mismatches as a line-by-line diff. A
//! mismatch is a report, not a failure; a module that cannot load or
//! evaluate is a failure.

use vstd::prelude::*;
use vstd::string::StrSliceExecFns;
use crate::config::Config;
use crate::config::ConfigModule;
use crate::config::ConfigModuleV;
use crate::config::ConfigModuleTest;
use crate::config::ConfigModuleTestV;
use crate::config::spec_source_ok;
use crate::engine::inline_load;
use crate::json::push_char;
use crate::module::Module;
use crate::module::ModuleSourceV;
use crate::module::PipelineError;
use crate::module::PipelineErrorV;
use crate::module::StateError;
use crate::module::spec_eval_inline_module;

verus! {

/// The lines of a text, split at every line feed: one more line than there
/// are line feeds, in order.
pub open spec fn spec_split_lines(s: Seq<char>) -> Seq<Seq<char>>
    decreases s.len(),
{
    if s.len() == 0 {
        seq![Seq::<char>::empty()]
    } else if s[0] == '\n' {
        seq![Seq::<char>::empty()] + spec_split_lines(s.skip(1))
    } else {
        let rest = spec_split_lines(s.skip(1));
        seq![seq![s[0]] + rest[0]] + rest.skip(1)
    }
}

/// A split text always has at least one line.
pub proof fn lemma_split_lines_nonempty(s: Seq<char>)
    ensures
        spec_split_lines(s).len() >= 1,
    decreases s.len(),
{
    if s.len() != 0 {
        lemma_split_lines_nonempty(s.skip(1));
    }
}

/// Splits a text into its lines.
pub fn split_lines(s: &str) -> (r: Vec<String>)
    ensures
        r.deep_view() == spec_split_lines(s@),
{
    let n = s.unicode_len();
    let mut out: Vec<String> = Vec::new();
    let mut cur = String::new();
    let mut i: usize = 0;
    proof {
        assert(s@.skip(0) =~= s@);
    }
    while i < n
        invariant
            0 <= i <= n,
            n == s@.len(),
            spec_split_lines(s@) == out.deep_view() + seq![
                cur@ + spec_split_lines(s@.skip(i as int))[0],
            ] + spec_split_lines(s@.skip(i as int)).skip(1),
        decreases n - i,
    {
        let c = s.get_char(i);
        proof {
            assert(s@.skip(i as int)[0] == s@[i as int]);
            assert(s@.skip(i as int).skip(1) =~= s@.skip(i as int + 1));
            lemma_split_lines_nonempty(s@.skip(i as int + 1));
        }
        if c == '\n' {
            let ghost prev_out = out.deep_view();
            let ghost done = cur@;
            let mut line = String::new();
            std::mem::swap(&mut line, &mut cur);
            out.push(line);
            proof {
                let rest = spec_split_lines(s@.skip(i as int + 1));
                assert(out.deep_view() =~= prev_out.push(done));
                assert(done + Seq::<char>::empty() =~= done);
                assert(spec_split_lines(s@.skip(i as int)) =~= seq![Seq::<char>::empty()] + rest);
                assert((seq![Seq::<char>::empty()] + rest).skip(1) =~= rest);
                assert(prev_out + seq![done] + rest =~= prev_out.push(done) + seq![
                    Seq::<char>::empty() + rest[0],
                ] + rest.skip(1));
            }
        } else {
            let ghost done = cur@;
            push_char(&mut cur, c);
            proof {
                let rest = spec_split_lines(s@.skip(i as int + 1));
                assert(cur@ =~= done.push(c));
                assert(done + (seq![c] + rest[0]) =~= done.push(c) + rest[0]);
                assert((seq![seq![c] + rest[0]] + rest.skip(1))[0] == seq![c] + rest[0]);
                assert((seq![seq![c] + rest[0]] + rest.skip(1)).skip(1) =~= rest.skip(1));
            }
        }
        i = i + 1;
    }
    proof {
        assert(s@.skip(n as int) =~= Seq::<char>::empty());
        assert(spec_split_lines(s@.skip(n as int)) =~= seq![Seq::<char>::empty()]);
        assert(cur@ + Seq::<char>::empty() =~= cur@);
        assert(seq![Seq::<char>::empty()].skip(1) =~= Seq::<Seq<char>>::empty());
    }
    let ghost prev_out = out.deep_view();
    let ghost done = cur@;
    out.push(cur);
    proof {
        assert(out.deep_view() =~= prev_out.push(done));
        assert(prev_out + seq![done] + Seq::<Seq<char>>::empty() =~= prev_out.push(done));
    }
    out
}

/// The report of one test case: whether the rendered text matched the
/// expected text byte for byte, and both texts' lines for diagnostics.
#[derive(Debug)]
pub struct TestOutcome {
    pub passed: bool,
    pub actual_lines: Vec<String>,
    pub expected_lines: Vec<String>,
}

/// Mathematical model of a test outcome.
pub struct TestOutcomeV {
    pub passed: bool,
    pub actual_lines: Seq<Seq<char>>,
    pub expected_lines: Seq<Seq<char>>,
}

impl DeepView for TestOutcome {
    type V = TestOutcomeV;

    open spec fn deep_view(&self) -> TestOutcomeV {
        TestOutcomeV {
            passed: self.passed,
            actual_lines: self.actual_lines.deep_view(),
            expected_lines: self.expected_lines.deep_view(),
        }
    }
}

/// The outcome of one test case given the rendered text.
pub open spec fn spec_outcome(rendered: Seq<char>, expected: Seq<char>) -> TestOutcomeV {
    TestOutcomeV {
        passed: rendered == expected,
        actual_lines: spec_split_lines(rendered),
        expected_lines: spec_split_lines(expected),
    }
}

/// The outcomes of a run of test cases against an inline program, stopping
/// at the first evaluation failure.
pub open spec fn spec_run_tests_inline(source: Seq<char>, tests: Seq<ConfigModuleTestV>) -> Result<
    Seq<TestOutcomeV>,
    PipelineErrorV,
>
    decreases tests.len(),
{
    if tests.len() == 0 {
        Ok(Seq::empty())
    } else {
        match spec_eval_inline_module(source, tests[0].input) {
            Err(e) => Err(e),
            Ok(t) => match spec_run_tests_inline(source, tests.skip(1)) {
                Err(e) => Err(e),
                Ok(rest) => Ok(seq![spec_outcome(t, tests[0].output)] + rest),
            },
        }
    }
}

/// Runs each configured test case through the module, reporting pass or a
/// line diff per case; an evaluation failure ends the run as the error.
pub fn run_module_tests(module: &Module, tests: &Vec<ConfigModuleTest>) -> (r: Result<
    Vec<TestOutcome>,
    PipelineError,
>)
    ensures
        r matches Ok(outs) ==> outs@.len() == tests@.len(),
        r is Err ==> tests@.len() > 0,
        module.source matches crate::module::ModuleSource::Inline(src) ==> match r {
            Ok(outs) => spec_run_tests_inline(src@, tests.deep_view()) == Ok::<
                Seq<TestOutcomeV>,
                PipelineErrorV,
            >(outs.deep_view()),
            Err(e) => spec_run_tests_inline(src@, tests.deep_view()) == Err::<
                Seq<TestOutcomeV>,
                PipelineErrorV,
            >(e.deep_view()),
        },
{
    let ghost msv = module.source.deep_view();
    let ghost tv = tests.deep_view();
    let n = tests.len();
    let mut outs: Vec<TestOutcome> = Vec::new();
    let mut i: usize = 0;
    proof {
        assert(tv.skip(0) =~= tv);
    }
    while i < n
        invariant
            0 <= i <= n,
            n == tests@.len(),
            tv == tests.deep_view(),
            msv == module.source.deep_view(),
            outs@.len() == i,
            msv matches ModuleSourceV::Inline(src) ==> match spec_run_tests_inline(
                src,
                tv.skip(i as int),
            ) {
                Ok(rest) => spec_run_tests_inline(src, tv) == Ok::<
                    Seq<TestOutcomeV>,
                    PipelineErrorV,
                >(outs.deep_view() + rest),
                Err(e) => spec_run_tests_inline(src, tv) == Err::<
                    Seq<TestOutcomeV>,
                    PipelineErrorV,
                >(e),
            },
        decreases n - i,
    {
        proof {
            assert(tv.skip(i as int)[0] == tv[i as int]);
            assert(tv.skip(i as int).skip(1) =~= tv.skip(i as int + 1));
            assert(tv[i as int] == tests@[i as int].deep_view());
        }
        let case = &tests[i];
        match module.eval(case.input.as_str()) {
            Err(e) => {
                return Err(e);
            },
            Ok(actual) => {
                let passed = actual == case.output;
                let outcome = TestOutcome {
                    passed,
                    actual_lines: split_lines(actual.as_str()),
                    expected_lines: split_lines(case.output.as_str()),
                };
                let ghost ov = outcome.deep_view();
                let ghost prev = outs.deep_view();
                outs.push(outcome);
                proof {
                    assert(outs.deep_view() =~= prev.push(ov));
                    match msv {
                        ModuleSourceV::Inline(src) => {
                            assert(ov == spec_outcome(actual@, tv[i as int].output));
                            if spec_run_tests_inline(src, tv.skip(i as int + 1)) is Ok {
                                let rest = spec_run_tests_inline(src, tv.skip(i as int + 1))->Ok_0;
                                assert(prev + (seq![ov] + rest) =~= prev.push(ov) + rest);
                            }
                        },
                        _ => {},
                    }
                }
            },
        }
        i = i + 1;
    }
    proof {
        assert(tv.skip(n as int) =~= Seq::<ConfigModuleTestV>::empty());
        assert(outs.deep_view() + Seq::<TestOutcomeV>::empty() =~= outs.deep_view());
    }
    Ok(outs)
}

/// Why one module failed validation.
#[derive(Debug)]
pub enum ModuleError {
    /// The module declares both program sources or neither.
    BadSource,
    /// The module's program failed to load; the payload is the engine's
    /// diagnostic.
    Load(String),
    /// The module failed to evaluate one of its configured test inputs.
    Eval(PipelineError),
}

/// The test cases a module declares; none means an empty run.
pub open spec fn spec_tests_of(m: ConfigModuleV) -> Seq<ConfigModuleTestV> {
    match m.tests {
        Some(ts) => ts,
        None => Seq::empty(),
    }
}

impl ConfigModule {
    /// Loads the module and runs its configured test cases. A bad source
    /// declaration, a program that fails to load, or an evaluation failure
    /// is the error; test mismatches are reported in the outcomes,
    /// deliberately non-fatal.
    pub fn validate(&self) -> (r: Result<Vec<TestOutcome>, ModuleError>)
        ensures
            match r {
                Ok(outs) => spec_source_ok(self.deep_view()) && outs@.len() == spec_tests_of(
                    self.deep_view(),
                ).len() && (self.deep_view().jsonnet matches Some(src) ==> (inline_load(src) is Ok
                    && spec_run_tests_inline(src, spec_tests_of(self.deep_view())) == Ok::<
                    Seq<TestOutcomeV>,
                    PipelineErrorV,
                >(outs.deep_view()))),
                Err(e) => match e {
                    ModuleError::BadSource => !spec_source_ok(self.deep_view()),
                    ModuleError::Load(msg) => spec_source_ok(self.deep_view()) && (
                    self.deep_view().jsonnet matches Some(src) ==> inline_load(src) == Err::<
                        (),
                        Seq<char>,
                    >(msg@)),
                    ModuleError::Eval(p) => spec_source_ok(self.deep_view()) && spec_tests_of(
                        self.deep_view(),
                    ).len() > 0 && (self.deep_view().jsonnet matches Some(src) ==> (inline_load(
                        src,
                    ) is Ok && spec_run_tests_inline(src, spec_tests_of(self.deep_view()))
                        == Err::<Seq<TestOutcomeV>, PipelineErrorV>(p.deep_view()))),
                },
            },
    {
        let module = match self.state() {
            Ok(m) => m,
            Err(StateError::AmbiguousOrMissingSource) => {
                return Err(ModuleError::BadSource);
            },
            Err(StateError::Load(msg)) => {
                return Err(ModuleError::Load(msg));
            },
        };
        match &self.tests {
            Some(ts) => match run_module_tests(&module, ts) {
                Ok(outs) => Ok(outs),
                Err(e) => Err(ModuleError::Eval(e)),
            },
            None => {
                let outs: Vec<TestOutcome> = Vec::new();
                proof {
                    assert(outs.deep_view() =~= Seq::<TestOutcomeV>::empty());
                }
                Ok(outs)
            },
        }
    }
}

/// One module's validation failure, named.
#[derive(Debug)]
pub struct ValidationFailure {
    pub module: String,
    pub error: ModuleError,
}

impl Config {
    /// Validates every module in configuration order: loads it and runs
    /// its test cases, reporting each module's outcomes under its name.
    /// The first module that cannot load or evaluate ends validation as
    /// the failure; test mismatches never do.
    pub fn validate(&self) -> (r: Result<Vec<(String, Vec<TestOutcome>)>, ValidationFailure>)
        ensures
            match r {
                Ok(reports) => reports@.len() == self@.len() && (forall|j: int|
                    0 <= j < self@.len() ==> spec_source_ok((#[trigger] self@[j]).1)) && (forall|
                    j: int,
                |
                    0 <= j < self@.len() ==> (#[trigger] reports.deep_view()[j]).0 == self@[j].0)
                    && (forall|j: int|
                    0 <= j < self@.len() ==> ((#[trigger] self@[j]).1.jsonnet matches Some(src)
                        ==> (inline_load(src) is Ok && spec_run_tests_inline(
                        src,
                        spec_tests_of(self@[j].1),
                    ) == Ok::<Seq<TestOutcomeV>, PipelineErrorV>(reports.deep_view()[j].1)))),
                Err(f) => exists|j: int|
                    0 <= j < self@.len() && (#[trigger] self@[j]).0 == f.module@ && (
                    f.error matches ModuleError::BadSource ==> !spec_source_ok(self@[j].1)) && (
                    f.error matches ModuleError::Load(msg) ==> (spec_source_ok(self@[j].1) && (
                    self@[j].1.jsonnet matches Some(src) ==> inline_load(src) == Err::<
                        (),
                        Seq<char>,
                    >(msg@)))) && (f.error matches ModuleError::Eval(p) ==> (spec_source_ok(
                        self@[j].1,
                    ) && spec_tests_of(self@[j].1).len() > 0 && (
                    self@[j].1.jsonnet matches Some(src) ==> (inline_load(src) is Ok
                        && spec_run_tests_inline(src, spec_tests_of(self@[j].1)) == Err::<
                        Seq<TestOutcomeV>,
                        PipelineErrorV,
                    >(p.deep_view()))))),
            },
    {
        let ghost cv = self@;
        let n = self.modules.len();
        let mut reports: Vec<(String, Vec<TestOutcome>)> = Vec::new();
        let mut i: usize = 0;
        while i < n
            invariant
                0 <= i <= n,
                n == self.modules@.len(),
                cv == self@,
                cv == self.modules.deep_view(),
                reports@.len() == i,
                forall|j: int| 0 <= j < i ==> spec_source_ok((#[trigger] cv[j]).1),
                forall|j: int| 0 <= j < i ==> (#[trigger] reports.deep_view()[j]).0 == cv[j].0,
                forall|j: int|
                    0 <= j < i ==> ((#[trigger] cv[j]).1.jsonnet matches Some(src) ==> (
                    inline_load(src) is Ok && spec_run_tests_inline(src, spec_tests_of(cv[j].1))
                        == Ok::<Seq<TestOutcomeV>, PipelineErrorV>(reports.deep_view()[j].1))),
            decreases n - i,
        {
            proof {
                assert(cv[i as int] == (
                    self.modules@[i as int].0@,
                    self.modules@[i as int].1.deep_view(),
                ));
            }
            let name = &self.modules[i].0;
            match self.modules[i].1.validate() {
                Ok(outs) => {
                    let ghost prev = reports.deep_view();
                    let ghost ov = outs.deep_view();
                    let ghost namev = name@;
                    reports.push((name.clone(), outs));
                    proof {
                        assert(reports.deep_view() =~= prev.push((namev, ov)));
                    }
                },
                Err(e) => {
                    return Err(ValidationFailure { module: name.clone(), error: e });
                },
            }
            i = i + 1;
        }
        Ok(reports)
    }
}

} // verus!
