//! The compilation itself: settings are resolved, the document goes to the
//! `mdxjs` compiler, and what comes back is reported in the library's terms.
use vstd::prelude::*;
use crate::error::{CompileError, CompileErrorView};
use crate::options::{resolve_options, resolved, text_of, JsxRuntime, Options, OptionsView};

verus! {

/// What `mdxjs::compile` makes of a document under given settings: the
/// JavaScript module, or the text of the message it rejects the document with.
pub uninterp spec fn mdx_output(source: Seq<char>, options: OptionsView) -> Result<
    Seq<char>,
    Seq<char>,
>;

/// The characters of what the compiler handed back.
pub open spec fn raw_view(outcome: Result<String, String>) -> Result<Seq<char>, Seq<char>> {
    match outcome {
        Ok(module) => Ok(module@),
        Err(text) => Err(text@),
    }
}

/// The model of a compilation's outcome.
pub open spec fn outcome_view(outcome: Result<String, CompileError>) -> Result<
    Seq<char>,
    CompileErrorView,
> {
    match outcome {
        Ok(module) => Ok(module@),
        Err(error) => Err(error@),
    }
}

/// How the compiler's outcome is reported: a module is handed on unchanged,
/// and a rejection becomes a syntax error that carries the message unchanged.
pub open spec fn settled(outcome: Result<Seq<char>, Seq<char>>) -> Result<
    Seq<char>,
    CompileErrorView,
> {
    match outcome {
        Ok(module) => Ok(module),
        Err(text) => Err(CompileErrorView::Syntax(text)),
    }
}

/// What compiling a document under resolved settings gives.
pub open spec fn compiled_with(source: Seq<char>, options: OptionsView) -> Result<
    Seq<char>,
    CompileErrorView,
> {
    settled(mdx_output(source, options))
}

/// What compiling a document gives, from the settings as a caller passed
/// them: the configuration error where they do not resolve, else the
/// compilation under the resolved settings.
pub open spec fn compiled(
    source: Seq<char>,
    development: Option<bool>,
    jsx: Option<bool>,
    jsx_import_source: Option<Seq<char>>,
    jsx_runtime: Option<Seq<char>>,
    pragma: Option<Seq<char>>,
    pragma_frag: Option<Seq<char>>,
    pragma_import_source: Option<Seq<char>>,
    provider_import_source: Option<Seq<char>>,
) -> Result<Seq<char>, CompileErrorView> {
    match resolved(
        development,
        jsx,
        jsx_import_source,
        jsx_runtime,
        pragma,
        pragma_frag,
        pragma_import_source,
        provider_import_source,
    ) {
        Ok(options) => compiled_with(source, options),
        Err(error) => Err(error),
    }
}

/// Calls `mdxjs::compile` on the document, with the library's settings copied
/// field by field into `mdxjs::Options` and every other field of it at its
/// default. A rejection is handed back as the text that the message displays
/// as. Not proved: that the outcome is the one `mdx_output` names, which is to
/// say that it depends on the document and these settings alone.
#[verifier::external_body]
fn mdx_compile(source: &str, options: &Options) -> (outcome: Result<String, String>)
    ensures
        raw_view(outcome) == mdx_output(source@, options@),
{
    let outside = mdxjs::Options {
        development: options.development,
        jsx: options.jsx,
        jsx_import_source: options.jsx_import_source.clone(),
        jsx_runtime: Some(match options.jsx_runtime {
            JsxRuntime::Automatic => mdxjs::JsxRuntime::Automatic,
            JsxRuntime::Classic => mdxjs::JsxRuntime::Classic,
        }),
        pragma: options.pragma.clone(),
        pragma_frag: options.pragma_frag.clone(),
        pragma_import_source: options.pragma_import_source.clone(),
        provider_import_source: options.provider_import_source.clone(),
        ..Default::default()
    };
    mdxjs::compile(source, &outside).map_err(|message| message.to_string())
}

/// Reports what the compiler handed back: a module unchanged, a rejection as
/// a syntax error with the same text. Output is all or nothing.
pub fn settle(outcome: Result<String, String>) -> (report: Result<String, CompileError>)
    ensures
        outcome_view(report) == settled(raw_view(outcome)),
{
    match outcome {
        Ok(module) => Ok(module),
        Err(text) => Err(CompileError::Syntax(text)),
    }
}

/// Compiles a document under settings that are already resolved. No
/// configuration error can come out of this.
pub fn compile_with(source: &str, options: &Options) -> (report: Result<String, CompileError>)
    ensures
        outcome_view(report) == compiled_with(source@, options@),
        report matches Err(error) ==> error@ is Syntax,
{
    settle(mdx_compile(source, options))
}

/// Compiles an MDX document to a JavaScript module.
///
/// Every setting is optional. The runtime name is checked first: where it is
/// neither `"automatic"` nor `"classic"`, the call fails with a configuration
/// error and the document is not looked at.
pub fn compile(
    source: &str,
    development: Option<bool>,
    jsx: Option<bool>,
    jsx_import_source: Option<String>,
    jsx_runtime: Option<String>,
    pragma: Option<String>,
    pragma_frag: Option<String>,
    pragma_import_source: Option<String>,
    provider_import_source: Option<String>,
) -> (report: Result<String, CompileError>)
    ensures
        outcome_view(report) == compiled(
            source@,
            development,
            jsx,
            text_of(jsx_import_source),
            text_of(jsx_runtime),
            text_of(pragma),
            text_of(pragma_frag),
            text_of(pragma_import_source),
            text_of(provider_import_source),
        ),
{
    match resolve_options(
        development,
        jsx,
        jsx_import_source,
        jsx_runtime,
        pragma,
        pragma_frag,
        pragma_import_source,
        provider_import_source,
    ) {
        Ok(options) => compile_with(source, &options),
        Err(error) => Err(error),
    }
}

/// The same as [`compile`], under the name that callers of a blocking entry
/// point look for: same settings, same document, same outcome.
pub fn compile_sync(
    source: &str,
    development: Option<bool>,
    jsx: Option<bool>,
    jsx_import_source: Option<String>,
    jsx_runtime: Option<String>,
    pragma: Option<String>,
    pragma_frag: Option<String>,
    pragma_import_source: Option<String>,
    provider_import_source: Option<String>,
) -> (report: Result<String, CompileError>)
    ensures
        outcome_view(report) == compiled(
            source@,
            development,
            jsx,
            text_of(jsx_import_source),
            text_of(jsx_runtime),
            text_of(pragma),
            text_of(pragma_frag),
            text_of(pragma_import_source),
            text_of(provider_import_source),
        ),
{
    compile(
        source,
        development,
        jsx,
        jsx_import_source,
        jsx_runtime,
        pragma,
        pragma_frag,
        pragma_import_source,
        provider_import_source,
    )
}

/// With the runtime left unset, or named `"automatic"` or `"classic"`, the
/// settings always resolve: the outcome is that of the compilation under the
/// resolved settings, whatever the other settings are, so a failure can only
/// be the compiler's rejection of the document.
pub proof fn lemma_known_runtime_never_misconfigured(
    source: Seq<char>,
    development: Option<bool>,
    jsx: Option<bool>,
    jsx_import_source: Option<Seq<char>>,
    jsx_runtime: Option<Seq<char>>,
    pragma: Option<Seq<char>>,
    pragma_frag: Option<Seq<char>>,
    pragma_import_source: Option<Seq<char>>,
    provider_import_source: Option<Seq<char>>,
)
    requires
        jsx_runtime matches Some(name) ==> name == "automatic"@ || name == "classic"@,
    ensures
        resolved(
            development,
            jsx,
            jsx_import_source,
            jsx_runtime,
            pragma,
            pragma_frag,
            pragma_import_source,
            provider_import_source,
        ) is Ok,
        compiled(
            source,
            development,
            jsx,
            jsx_import_source,
            jsx_runtime,
            pragma,
            pragma_frag,
            pragma_import_source,
            provider_import_source,
        ) == compiled_with(
            source,
            resolved(
                development,
                jsx,
                jsx_import_source,
                jsx_runtime,
                pragma,
                pragma_frag,
                pragma_import_source,
                provider_import_source,
            )->Ok_0,
        ),
        compiled(
            source,
            development,
            jsx,
            jsx_import_source,
            jsx_runtime,
            pragma,
            pragma_frag,
            pragma_import_source,
            provider_import_source,
        ) != Err::<Seq<char>, CompileErrorView>(CompileErrorView::Configuration),
{
}

/// A runtime name other than `"automatic"` and `"classic"` fails the call
/// with the configuration error, whose text is fixed. The outcome is the same
/// for every document and every other setting: nothing of them is read.
pub proof fn lemma_unknown_runtime_rejected(
    source: Seq<char>,
    development: Option<bool>,
    jsx: Option<bool>,
    jsx_import_source: Option<Seq<char>>,
    name: Seq<char>,
    pragma: Option<Seq<char>>,
    pragma_frag: Option<Seq<char>>,
    pragma_import_source: Option<Seq<char>>,
    provider_import_source: Option<Seq<char>>,
)
    requires
        name != "automatic"@,
        name != "classic"@,
    ensures
        compiled(
            source,
            development,
            jsx,
            jsx_import_source,
            Some(name),
            pragma,
            pragma_frag,
            pragma_import_source,
            provider_import_source,
        ) == Err::<Seq<char>, CompileErrorView>(CompileErrorView::Configuration),
        CompileErrorView::Configuration.message()
            == "jsx_runtime must be 'automatic' or 'classic'"@,
{
}

/// Compiling is deterministic: two outcomes of compiling the same document
/// under the same settings, through either entry point, agree character for
/// character, in the module as in the error.
pub proof fn lemma_same_input_same_outcome(
    first: Result<String, CompileError>,
    second: Result<String, CompileError>,
    source: Seq<char>,
    development: Option<bool>,
    jsx: Option<bool>,
    jsx_import_source: Option<Seq<char>>,
    jsx_runtime: Option<Seq<char>>,
    pragma: Option<Seq<char>>,
    pragma_frag: Option<Seq<char>>,
    pragma_import_source: Option<Seq<char>>,
    provider_import_source: Option<Seq<char>>,
)
    requires
        outcome_view(first) == compiled(
            source,
            development,
            jsx,
            jsx_import_source,
            jsx_runtime,
            pragma,
            pragma_frag,
            pragma_import_source,
            provider_import_source,
        ),
        outcome_view(second) == compiled(
            source,
            development,
            jsx,
            jsx_import_source,
            jsx_runtime,
            pragma,
            pragma_frag,
            pragma_import_source,
            provider_import_source,
        ),
    ensures
        outcome_view(first) == outcome_view(second),
        first matches Ok(module) ==> second is Ok && second->Ok_0@ == module@,
        first matches Err(error) ==> second is Err && second->Err_0@.message()
            == error@.message(),
{
}

} // verus!
