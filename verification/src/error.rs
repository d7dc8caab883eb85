//! The error a compilation can end in.
use vstd::prelude::*;
use vstd::string::StringExecFns;

verus! {

/// Why a compilation produced no output.
#[derive(Debug, Clone, PartialEq, Eq)]
pub enum CompileError {
    /// The JSX runtime was given by a name that is not known. The document
    /// was not looked at.
    Configuration,
    /// The document was rejected. Holds the compiler's diagnostics as text.
    Syntax(String),
}

/// Mathematical model of a [`CompileError`].
pub enum CompileErrorView {
    Configuration,
    Syntax(Seq<char>),
}

/// The text reported for an unknown JSX runtime name.
pub open spec fn configuration_message() -> Seq<char> {
    "jsx_runtime must be 'automatic' or 'classic'"@
}

impl CompileErrorView {
    /// The text a caller is shown for this error.
    pub open spec fn message(self) -> Seq<char> {
        match self {
            CompileErrorView::Configuration => configuration_message(),
            CompileErrorView::Syntax(text) => text,
        }
    }
}

impl View for CompileError {
    type V = CompileErrorView;

    open spec fn view(&self) -> CompileErrorView {
        match self {
            CompileError::Configuration => CompileErrorView::Configuration,
            CompileError::Syntax(text) => CompileErrorView::Syntax(text@),
        }
    }
}

impl CompileError {
    /// The text a caller is shown for this error: a fixed sentence for a
    /// configuration error, the diagnostics unchanged for a rejected document.
    pub fn message(&self) -> (text: String)
        ensures
            text@ == self@.message(),
    {
        match self {
            CompileError::Configuration => {
                String::from_str("jsx_runtime must be 'automatic' or 'classic'")
            },
            CompileError::Syntax(text) => text.clone(),
        }
    }
}

} // verus!
