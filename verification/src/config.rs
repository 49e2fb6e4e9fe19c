//! The module registry: named modules loaded from configuration, each with
//! exactly one program source (inline text or a file path) and optional
//! inline test cases.

use vstd::prelude::*;
use crate::json::str_eq;

verus! {

/// One configured test case: a JSON-encodable input string and the literal
/// exposition text expected of it.
pub struct ConfigModuleTest {
    pub input: String,
    pub output: String,
}

/// One configured module: exactly one of `jsonnet` (inline program text)
/// and `jsonnet_path` (path to a program file) must be set; test cases are
/// optional.
pub struct ConfigModule {
    pub jsonnet: Option<String>,
    pub jsonnet_path: Option<String>,
    pub tests: Option<Vec<ConfigModuleTest>>,
}

/// The configuration: module names with their modules, each name unique,
/// in configuration order.
pub struct Config {
    pub modules: Vec<(String, ConfigModule)>,
}

/// Mathematical model of a test case.
pub struct ConfigModuleTestV {
    pub input: Seq<char>,
    pub output: Seq<char>,
}

/// Mathematical model of a configured module.
pub struct ConfigModuleV {
    pub jsonnet: Option<Seq<char>>,
    pub jsonnet_path: Option<Seq<char>>,
    pub tests: Option<Seq<ConfigModuleTestV>>,
}

/// Mathematical model of the configuration.
pub type ConfigV = Seq<(Seq<char>, ConfigModuleV)>;

impl DeepView for ConfigModuleTest {
    type V = ConfigModuleTestV;

    open spec fn deep_view(&self) -> ConfigModuleTestV {
        ConfigModuleTestV { input: self.input@, output: self.output@ }
    }
}

impl DeepView for ConfigModule {
    type V = ConfigModuleV;

    open spec fn deep_view(&self) -> ConfigModuleV {
        ConfigModuleV {
            jsonnet: match self.jsonnet {
                Some(s) => Some(s@),
                None => None,
            },
            jsonnet_path: match self.jsonnet_path {
                Some(s) => Some(s@),
                None => None,
            },
            tests: match self.tests {
                Some(ts) => Some(ts.deep_view()),
                None => None,
            },
        }
    }
}

impl View for Config {
    type V = ConfigV;

    open spec fn view(&self) -> ConfigV {
        self.modules.deep_view()
    }
}

/// A module declaration names exactly one program source.
pub open spec fn spec_source_ok(m: ConfigModuleV) -> bool {
    (m.jsonnet is Some) != (m.jsonnet_path is Some)
}

/// A module whose source declaration is ambiguous or missing, named.
#[derive(Debug)]
pub enum ConfigError {
    AmbiguousOrMissingSource { module: String },
}

/// Mathematical model of a configuration error.
pub enum ConfigErrorV {
    AmbiguousOrMissingSource { module: Seq<char> },
}

impl DeepView for ConfigError {
    type V = ConfigErrorV;

    open spec fn deep_view(&self) -> ConfigErrorV {
        match self {
            ConfigError::AmbiguousOrMissingSource { module } => {
                ConfigErrorV::AmbiguousOrMissingSource { module: module@ }
            },
        }
    }
}

/// The first module, in configuration order, whose source declaration does
/// not hold, as the error naming it; success when every declaration holds.
pub open spec fn spec_validate_sources(ms: ConfigV) -> Result<(), ConfigErrorV>
    decreases ms.len(),
{
    if ms.len() == 0 {
        Ok(())
    } else if !spec_source_ok(ms[0].1) {
        Err(ConfigErrorV::AmbiguousOrMissingSource { module: ms[0].0 })
    } else {
        spec_validate_sources(ms.skip(1))
    }
}

/// The module bound to `name`, if any.
pub open spec fn spec_lookup(ms: ConfigV, name: Seq<char>) -> Option<ConfigModuleV>
    decreases ms.len(),
{
    if ms.len() == 0 {
        None
    } else if ms[0].0 == name {
        Some(ms[0].1)
    } else {
        spec_lookup(ms.skip(1), name)
    }
}

impl Config {
    /// Checks every module's source declaration, reporting the first
    /// module that declares both sources or neither.
    pub fn validate_sources(&self) -> (r: Result<(), ConfigError>)
        ensures
            match r {
                Ok(_) => spec_validate_sources(self@) == Ok::<(), ConfigErrorV>(()),
                Err(e) => spec_validate_sources(self@) == Err::<(), ConfigErrorV>(e.deep_view()),
            },
    {
        let ghost cv = self@;
        let n = self.modules.len();
        let mut i: usize = 0;
        proof {
            assert(cv.skip(0) =~= cv);
        }
        while i < n
            invariant
                0 <= i <= n,
                n == self.modules@.len(),
                cv == self@,
                cv == self.modules.deep_view(),
                spec_validate_sources(cv) == spec_validate_sources(cv.skip(i as int)),
            decreases n - i,
        {
            proof {
                assert(cv.skip(i as int)[0] == cv[i as int]);
                assert(cv.skip(i as int).skip(1) =~= cv.skip(i as int + 1));
                assert(cv[i as int] == (
                    self.modules@[i as int].0@,
                    self.modules@[i as int].1.deep_view(),
                ));
            }
            let m = &self.modules[i].1;
            let bad: bool = match (&m.jsonnet, &m.jsonnet_path) {
                (Some(_), Some(_)) => true,
                (None, None) => true,
                _ => false,
            };
            if bad {
                return Err(
                    ConfigError::AmbiguousOrMissingSource { module: self.modules[i].0.clone() },
                );
            }
            i = i + 1;
        }
        proof {
            assert(cv.skip(n as int) =~= Seq::<(Seq<char>, ConfigModuleV)>::empty());
        }
        Ok(())
    }

    /// Looks a module up by name.
    pub fn lookup<'a>(&'a self, name: &str) -> (r: Option<&'a ConfigModule>)
        ensures
            match r {
                Some(m) => spec_lookup(self@, name@) == Some(m.deep_view()),
                None => spec_lookup(self@, name@) is None,
            },
    {
        let ghost cv = self@;
        let n = self.modules.len();
        let mut i: usize = 0;
        proof {
            assert(cv.skip(0) =~= cv);
        }
        while i < n
            invariant
                0 <= i <= n,
                n == self.modules@.len(),
                cv == self@,
                cv == self.modules.deep_view(),
                spec_lookup(cv, name@) == spec_lookup(cv.skip(i as int), name@),
            decreases n - i,
        {
            proof {
                assert(cv.skip(i as int)[0] == cv[i as int]);
                assert(cv.skip(i as int).skip(1) =~= cv.skip(i as int + 1));
                assert(cv[i as int] == (
                    self.modules@[i as int].0@,
                    self.modules@[i as int].1.deep_view(),
                ));
            }
            if str_eq(self.modules[i].0.as_str(), name) {
                return Some(&self.modules[i].1);
            }
            i = i + 1;
        }
        proof {
            assert(cv.skip(n as int) =~= Seq::<(Seq<char>, ConfigModuleV)>::empty());
        }
        None
    }
}

} // verus!
