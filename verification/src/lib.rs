//! Compile MDX documents to JavaScript modules.
//!
//! The entry points are [`compile`] and its alias [`compile_sync`]. They
//! resolve the caller's settings into [`Options`], reject an unknown JSX
//! runtime name before the document is looked at, hand the document to the
//! `mdxjs` compiler, and report a rejected document as a [`CompileError`].
pub mod error;
pub mod options;
pub mod compiler;

pub use compiler::{compile, compile_sync, compile_with, settle};
pub use error::CompileError;
pub use options::{parse_jsx_runtime, resolve_options, JsxRuntime, Options};
