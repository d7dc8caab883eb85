use mdxjs_py::{compile, compile_sync, compile_with, settle, CompileError, JsxRuntime, Options};

fn text(s: &str) -> Option<String> {
    Some(s.to_string())
}

fn plain(source: &str) -> Result<String, CompileError> {
    compile(source, None, None, None, None, None, None, None, None)
}

const HELLO_MODULE: &str = "function _createMdxContent(props) {\n    const _components = Object.assign({\n        h1: \"h1\"\n    }, props.components);\n    return <_components.h1>{\"Hello\"}</_components.h1>;\n}\nfunction MDXContent(props = {}) {\n    const { wrapper: MDXLayout } = props.components || {};\n    return MDXLayout ? <MDXLayout {...props}><_createMdxContent {...props}/></MDXLayout> : _createMdxContent(props);\n}\nexport default MDXContent;\n";

#[test]
fn heading_becomes_an_h1_component() {
    let module = plain("# Hello").unwrap();
    assert!(module.contains("<_components.h1>{\"Hello\"}</_components.h1>"));
    assert!(module.contains("export default MDXContent;"));
    assert_eq!(module, HELLO_MODULE);
}

#[test]
fn output_is_not_the_document() {
    let module = plain("# Hello").unwrap();
    assert_ne!(module, "# Hello");
    assert!(!module.contains("# Hello"));
}

#[test]
fn import_is_passed_through_and_expression_embedded() {
    let module = plain("import x from 'y'\n\n# {x}").unwrap();
    assert!(module.starts_with("import x from 'y';\n"));
    assert!(module.contains("import x from 'y'"));
    assert!(module.contains("<_components.h1>{x}</_components.h1>"));
}

#[test]
fn several_imports_and_exports_stay_in_order_at_the_top() {
    let module = plain("import a from 'b'\nexport const c = 1\n\nText").unwrap();
    assert!(module.starts_with("import a from 'b';\nexport const c = 1;\n"));
}

#[test]
fn unterminated_fence_is_a_code_block() {
    let module = plain("```js\ncode\n").unwrap();
    assert!(module.contains(
        "<_components.pre><_components.code className=\"language-js\">{\"code\\n\"}</_components.code></_components.pre>"
    ));
}

#[test]
fn unmatched_tag_is_a_syntax_error_at_the_opening() {
    let error = plain("<div>").unwrap_err();
    assert_eq!(
        error,
        CompileError::Syntax(
            "1:6: Expected a closing tag for `<div>` (1:1) (markdown-rs:end-tag-mismatch)"
                .to_string()
        )
    );
    assert_ne!(error, CompileError::Configuration);
    assert!(error.message().contains("`<div>` (1:1)"));
}

#[test]
fn unmatched_brace_is_a_syntax_error() {
    let error = plain("a {b").unwrap_err();
    assert_eq!(
        error.message(),
        "1:5: Unexpected end of file in expression, expected a corresponding closing brace for `{` (markdown-rs:unexpected-eof)"
    );
}

#[test]
fn unfinished_import_is_a_syntax_error() {
    let error = plain("import x from\n\n# hi").unwrap_err();
    assert_ne!(error, CompileError::Configuration);
    assert!(error.message().starts_with("3:1: "));
}

#[test]
fn invalid_runtime_fails_with_the_fixed_message() {
    let error =
        compile("# Hello", None, None, None, text("invalid"), None, None, None, None).unwrap_err();
    assert_eq!(error, CompileError::Configuration);
    assert_eq!(error.message(), "jsx_runtime must be 'automatic' or 'classic'");
}

#[test]
fn invalid_runtime_fails_before_the_document_is_read() {
    let error =
        compile("<div>", None, None, None, text("Classic"), None, None, None, None).unwrap_err();
    assert_eq!(error, CompileError::Configuration);
    let error = compile_sync("a {b", Some(true), Some(false), None, text(""), None, None, None, None)
        .unwrap_err();
    assert_eq!(error, CompileError::Configuration);
}

#[test]
fn known_runtimes_fail_only_on_the_document() {
    for name in ["automatic", "classic"] {
        for jsx in [None, Some(true), Some(false)] {
            for development in [None, Some(true), Some(false)] {
                let good =
                    compile("# Hello", development, jsx, None, text(name), None, None, None, None);
                assert!(good.is_ok());
                let bad =
                    compile("<div>", development, jsx, None, text(name), None, None, None, None);
                assert!(matches!(bad, Err(CompileError::Syntax(_))));
            }
        }
    }
}

#[test]
fn same_input_gives_the_same_output() {
    let source = "import x from 'y'\n\n# {x}\n\n* a\n* b\n\n<div>text</div>\n";
    let first = compile(source, Some(true), Some(false), text("preact"), None, None, None, None, None);
    let second =
        compile(source, Some(true), Some(false), text("preact"), None, None, None, None, None);
    assert!(first.is_ok());
    assert_eq!(first, second);
    assert_eq!(plain("<div>"), plain("<div>"));
}

#[test]
fn jsx_is_compiled_away_on_request() {
    let module = compile("# Hello", None, Some(false), None, None, None, None, None, None).unwrap();
    assert!(module.starts_with("import { jsx as _jsx } from \"react/jsx-runtime\";\n"));
    assert!(module.contains("return _jsx(_components.h1, {\n        children: \"Hello\"\n    });"));
}

#[test]
fn automatic_runtime_imports_from_the_given_source() {
    let module =
        compile("# Hello", None, Some(false), text("preact"), None, None, None, None, None).unwrap();
    assert!(module.starts_with("import { jsx as _jsx } from \"preact/jsx-runtime\";\n"));
}

#[test]
fn development_annotates_elements_with_their_position() {
    let module =
        compile("# Hello", Some(true), Some(false), text("preact"), None, None, None, None, None)
            .unwrap();
    assert!(module.starts_with("import { jsxDEV as _jsxDEV } from \"preact/jsx-dev-runtime\";\n"));
    assert!(module.contains("lineNumber: 1,\n        columnNumber: 1\n"));
}

#[test]
fn classic_runtime_uses_the_pragmas_and_the_provider() {
    let module = compile(
        "# Hello",
        None,
        Some(false),
        None,
        text("classic"),
        text("h"),
        text("Fragment"),
        text("preact"),
        text("@mdx-js/preact"),
    )
    .unwrap();
    assert!(module.starts_with(
        "import { useMDXComponents as _provideComponents } from \"@mdx-js/preact\";\nimport h from \"preact\";\n"
    ));
    assert!(module.contains("return h(_components.h1, null, \"Hello\");"));
    assert!(!module.contains("jsx-runtime"));
}

#[test]
fn compile_with_takes_resolved_options() {
    let options = Options {
        development: false,
        jsx: false,
        jsx_import_source: None,
        jsx_runtime: JsxRuntime::Classic,
        pragma: text("h"),
        pragma_frag: None,
        pragma_import_source: text("preact"),
        provider_import_source: None,
    };
    let module = compile_with("# Hello", &options).unwrap();
    assert!(module.starts_with("import h from \"preact\";\n"));
    assert_eq!(
        Ok(module),
        compile("# Hello", None, Some(false), None, text("classic"), text("h"), None, text("preact"), None)
    );
}

#[test]
fn settle_hands_a_module_on() {
    assert_eq!(settle(Ok("export default 1;".to_string())), Ok("export default 1;".to_string()));
}

#[test]
fn settle_reports_a_rejection_as_syntax_error() {
    assert_eq!(
        settle(Err("1:1: bad".to_string())),
        Err(CompileError::Syntax("1:1: bad".to_string()))
    );
}

#[test]
fn compile_with_defaults_matches_compile() {
    let options = Options::default();
    assert_eq!(compile_with("# Hello", &options), plain("# Hello"));
    assert_eq!(options.jsx_runtime, JsxRuntime::Automatic);
}

#[test]
fn compile_sync_is_compile() {
    assert_eq!(
        compile_sync("# Hello", None, None, None, None, None, None, None, None),
        plain("# Hello")
    );
}
