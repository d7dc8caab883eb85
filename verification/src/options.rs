//! Settings of a compilation, and how they are resolved from what a caller gave.
use vstd::prelude::*;
use vstd::string::StrSliceExecFns;
use crate::error::{CompileError, CompileErrorView};

verus! {

/// How JSX is turned into calls.
#[derive(Debug, Clone, Copy, PartialEq, Eq, Structural)]
pub enum JsxRuntime {
    /// Element factories are imported by the emitted module itself.
    Automatic,
    /// Element factories are the identifiers named by the pragmas.
    Classic,
}

/// Settings of one compilation. Built once per call and never changed after.
#[derive(Debug, Clone)]
pub struct Options {
    /// Add source information to the emitted element calls.
    pub development: bool,
    /// Keep JSX in the output instead of compiling it to calls.
    pub jsx: bool,
    /// Where the automatic runtime is imported from.
    pub jsx_import_source: Option<String>,
    /// The JSX runtime.
    pub jsx_runtime: JsxRuntime,
    /// Element constructor of the classic runtime.
    pub pragma: Option<String>,
    /// Fragment constructor of the classic runtime.
    pub pragma_frag: Option<String>,
    /// Where the classic runtime's pragma is imported from.
    pub pragma_import_source: Option<String>,
    /// Where a components provider is imported from.
    pub provider_import_source: Option<String>,
}

/// Mathematical model of [`Options`]: the same fields, texts as sequences of
/// characters.
pub struct OptionsView {
    pub development: bool,
    pub jsx: bool,
    pub jsx_import_source: Option<Seq<char>>,
    pub jsx_runtime: JsxRuntime,
    pub pragma: Option<Seq<char>>,
    pub pragma_frag: Option<Seq<char>>,
    pub pragma_import_source: Option<Seq<char>>,
    pub provider_import_source: Option<Seq<char>>,
}

/// The characters of an optional text.
pub open spec fn text_of(text: Option<String>) -> Option<Seq<char>> {
    match text {
        Some(s) => Some(s@),
        None => None,
    }
}

impl View for Options {
    type V = OptionsView;

    open spec fn view(&self) -> OptionsView {
        OptionsView {
            development: self.development,
            jsx: self.jsx,
            jsx_import_source: text_of(self.jsx_import_source),
            jsx_runtime: self.jsx_runtime,
            pragma: text_of(self.pragma),
            pragma_frag: text_of(self.pragma_frag),
            pragma_import_source: text_of(self.pragma_import_source),
            provider_import_source: text_of(self.provider_import_source),
        }
    }
}

/// The settings of a caller who gave none.
pub open spec fn default_options() -> OptionsView {
    OptionsView {
        development: false,
        jsx: true,
        jsx_import_source: None,
        jsx_runtime: JsxRuntime::Automatic,
        pragma: None,
        pragma_frag: None,
        pragma_import_source: None,
        provider_import_source: None,
    }
}

impl Default for Options {
    fn default() -> (options: Options)
        ensures
            options@ == default_options(),
    {
        Options {
            development: false,
            jsx: true,
            jsx_import_source: None,
            jsx_runtime: JsxRuntime::Automatic,
            pragma: None,
            pragma_frag: None,
            pragma_import_source: None,
            provider_import_source: None,
        }
    }
}

/// The runtime that a name stands for. Names are case-sensitive.
pub open spec fn runtime_named(name: Seq<char>) -> Option<JsxRuntime> {
    if name == "automatic"@ {
        Some(JsxRuntime::Automatic)
    } else if name == "classic"@ {
        Some(JsxRuntime::Classic)
    } else {
        None
    }
}

/// Whether two texts hold the same characters.
fn same_text(left: &str, right: &str) -> (same: bool)
    ensures
        same == (left@ == right@),
{
    let n: usize = left.unicode_len();
    if n != right.unicode_len() {
        return false;
    }
    let mut i: usize = 0;
    while i < n
        invariant
            n == left@.len(),
            n == right@.len(),
            i <= n,
            forall|j: int| 0 <= j < i ==> left@[j] == right@[j],
        decreases n - i,
    {
        if left.get_char(i) != right.get_char(i) {
            return false;
        }
        i += 1;
    }
    assert(left@ =~= right@);
    true
}

/// Reads the name of a JSX runtime: `"automatic"` or `"classic"`, exactly.
/// Every other name is a configuration error.
pub fn parse_jsx_runtime(name: &str) -> (runtime: Result<JsxRuntime, CompileError>)
    ensures
        match runtime {
            Ok(found) => runtime_named(name@) == Some(found),
            Err(error) => runtime_named(name@) is None && error@
                == CompileErrorView::Configuration,
        },
{
    if same_text(name, "automatic") {
        Ok(JsxRuntime::Automatic)
    } else if same_text(name, "classic") {
        Ok(JsxRuntime::Classic)
    } else {
        Err(CompileError::Configuration)
    }
}

/// What a caller's settings resolve to: a setting that was given stands, one
/// that was not takes its default, and an unknown runtime name is a
/// configuration error whatever the other settings are.
pub open spec fn resolved(
    development: Option<bool>,
    jsx: Option<bool>,
    jsx_import_source: Option<Seq<char>>,
    jsx_runtime: Option<Seq<char>>,
    pragma: Option<Seq<char>>,
    pragma_frag: Option<Seq<char>>,
    pragma_import_source: Option<Seq<char>>,
    provider_import_source: Option<Seq<char>>,
) -> Result<OptionsView, CompileErrorView> {
    if jsx_runtime is Some && runtime_named(jsx_runtime->0) is None {
        Err(CompileErrorView::Configuration)
    } else {
        Ok(
            OptionsView {
                development: development.unwrap_or(default_options().development),
                jsx: jsx.unwrap_or(default_options().jsx),
                jsx_import_source,
                jsx_runtime: match jsx_runtime {
                    Some(name) => runtime_named(name)->0,
                    None => default_options().jsx_runtime,
                },
                pragma,
                pragma_frag,
                pragma_import_source,
                provider_import_source,
            },
        )
    }
}

/// The model of a resolution's outcome.
pub open spec fn resolution_view(outcome: Result<Options, CompileError>) -> Result<
    OptionsView,
    CompileErrorView,
> {
    match outcome {
        Ok(options) => Ok(options@),
        Err(error) => Err(error@),
    }
}

/// Resolves what a caller gave into the settings of a compilation.
pub fn resolve_options(
    development: Option<bool>,
    jsx: Option<bool>,
    jsx_import_source: Option<String>,
    jsx_runtime: Option<String>,
    pragma: Option<String>,
    pragma_frag: Option<String>,
    pragma_import_source: Option<String>,
    provider_import_source: Option<String>,
) -> (outcome: Result<Options, CompileError>)
    ensures
        resolution_view(outcome) == resolved(
            development,
            jsx,
            text_of(jsx_import_source),
            text_of(jsx_runtime),
            text_of(pragma),
            text_of(pragma_frag),
            text_of(pragma_import_source),
            text_of(provider_import_source),
        ),
{
    let mut options = Options::default();
    if let Some(given) = development {
        options.development = given;
    }
    if let Some(given) = jsx {
        options.jsx = given;
    }
    if let Some(name) = jsx_runtime {
        match parse_jsx_runtime(name.as_str()) {
            Ok(runtime) => {
                options.jsx_runtime = runtime;
            },
            Err(error) => {
                return Err(error);
            },
        }
    }
    options.jsx_import_source = jsx_import_source;
    options.pragma = pragma;
    options.pragma_frag = pragma_frag;
    options.pragma_import_source = pragma_import_source;
    options.provider_import_source = provider_import_source;
    Ok(options)
}

} // verus!
