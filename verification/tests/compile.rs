// Each compilation is prepared by the library, compiled by libsass, and
// settled by the library from what libsass reports. The reports below are
// the ones libsass gives for these inputs.

use sass_rs::context::{compile_outcome, Context, SassFileContext};
use sass_rs::{compile_file, compile_string, Options, OutputStyle};

fn options_of(context: &Context) -> &sass_rs::context::SassOptions {
    match context {
        Context::File(s) => &s.sass_context.options,
        Context::Data(s) => &s.sass_context.options,
    }
}

#[test]
fn can_compile_some_valid_scss_input() {
    let input = "body { .hey { color: red; } }";
    let context = compile_string(input, Options::default());
    match &context {
        Context::Data(d) => assert_eq!(d.data, input),
        Context::File(_) => panic!("a string compiles in a data context"),
    }
    let record = options_of(&context);
    assert_eq!(record.output_style, Some(OutputStyle::Nested));
    assert_eq!(record.precision, Some(5));
    assert!(!record.is_indented_syntax);
    assert!(record.include_paths.is_none());
    let reported: &[u8] = b"body .hey {\n  color: red; }\n";
    assert_eq!(
        compile_outcome(0, None, reported),
        Ok("body .hey {\n  color: red; }\n".to_string())
    );
}

#[test]
fn errors_with_invalid_scss_input() {
    let input = "body { .hey { color: ; } }";
    let context = compile_string(input, Options::default());
    match &context {
        Context::Data(d) => assert_eq!(d.data, input),
        Context::File(_) => panic!("a string compiles in a data context"),
    }
    let message: &[u8] = b"Error: Invalid CSS after \"...hey { color: \": expected expression (e.g. 1px, bold), was \"; } }\"\n        on line 1:22 of stdin\n>> body { .hey { color: ; } }\n";
    let res = compile_outcome(1, Some(message), b"");
    assert!(res.is_err());
}

#[test]
fn can_use_alternative_options() {
    let input = "body { .hey { color: red; } }";
    let mut opts = Options::default();
    opts.output_style = OutputStyle::Compressed;
    let context = compile_string(input, opts);
    assert_eq!(options_of(&context).output_style, Some(OutputStyle::Compressed));
    let reported: &[u8] = b"body .hey{color:red}\n";
    assert_eq!(compile_outcome(0, None, reported), Ok("body .hey{color:red}\n".to_string()));
}

#[test]
fn default_options_are_nested_scss() {
    let o = Options::default();
    assert_eq!(o.output_style, OutputStyle::Nested);
    assert_eq!(o.precision, 5);
    assert!(!o.indented_syntax);
    assert!(o.include_paths.is_empty());
}

#[test]
fn compile_file_prepares_a_file_context() {
    let mut opts = Options::default();
    opts.indented_syntax = true;
    opts.precision = 8;
    opts.include_paths = vec!["a".to_string(), "b/c".to_string()];
    let context = compile_file("styles/site.sass", opts).unwrap();
    match &context {
        Context::File(f) => assert_eq!(f.path, "styles/site.sass"),
        Context::Data(_) => panic!("a file compiles in a file context"),
    }
    let record = options_of(&context);
    assert_eq!(record.output_style, Some(OutputStyle::Nested));
    assert_eq!(record.precision, Some(8));
    assert!(record.is_indented_syntax);
    assert_eq!(record.include_paths, Some(vec!["a".to_string(), "b/c".to_string()]));
    assert!(record.c_functions.is_none());
}

#[test]
fn compile_file_rejects_a_path_with_nul() {
    let r = compile_file("ab\0c.scss", Options::default());
    assert_eq!(
        r.err(),
        Some("Failed to create CString: nul byte found in provided data at position: 2".to_string())
    );
    let r = Context::new_file("0123456789abc\0");
    assert_eq!(
        r.err(),
        Some("Failed to create CString: nul byte found in provided data at position: 13".to_string())
    );
}

#[test]
fn set_output_style_changes_only_the_style() {
    let mut context = Context::new_data("a { b: c }");
    let mut opts = Options::default();
    opts.indented_syntax = true;
    context.set_options(opts);
    context.set_output_style(OutputStyle::Expanded);
    let record = options_of(&context);
    assert_eq!(record.output_style, Some(OutputStyle::Expanded));
    assert_eq!(record.precision, Some(5));
    assert!(record.is_indented_syntax);
}

#[test]
fn set_options_twice_is_set_options_once() {
    let mut opts = Options::default();
    opts.output_style = OutputStyle::Compact;
    opts.include_paths = vec!["x".to_string()];
    let mut once = Context::new_data("");
    once.set_options(opts.clone());
    let mut twice = Context::new_data("");
    twice.set_options(opts.clone());
    twice.set_options(opts);
    let a = options_of(&once);
    let b = options_of(&twice);
    assert_eq!(a.output_style, b.output_style);
    assert_eq!(a.precision, b.precision);
    assert_eq!(a.is_indented_syntax, b.is_indented_syntax);
    assert_eq!(a.include_paths, b.include_paths);
}

#[test]
fn set_options_keeps_earlier_syntax_and_paths() {
    let mut context = Context::new_data("");
    let mut first = Options::default();
    first.indented_syntax = true;
    first.include_paths = vec!["lib".to_string()];
    context.set_options(first);
    context.set_options(Options::default());
    let record = options_of(&context);
    assert!(record.is_indented_syntax);
    assert_eq!(record.include_paths, Some(vec!["lib".to_string()]));
}

#[test]
fn compile_outcome_error_without_message() {
    assert_eq!(
        compile_outcome(3, None, b"ignored"),
        Err("An error occurred; no error message available.".to_string())
    );
}

#[test]
fn compile_outcome_replaces_invalid_utf8() {
    assert_eq!(compile_outcome(0, None, b"a\xffb"), Ok("a\u{FFFD}b".to_string()));
    assert_eq!(compile_outcome(2, Some(&b"bad \xc3"[..]), b""), Err("bad \u{FFFD}".to_string()));
    assert_eq!(compile_outcome(0, Some(&b"unused"[..]), "é".as_bytes()), Ok("é".to_string()));
}

#[test]
fn file_context_compile_outcomes() {
    assert_eq!(SassFileContext::compile(0, None, b"p{x:y}"), Ok("p{x:y}".to_string()));
    assert_eq!(SassFileContext::compile(1, None, b""), Err("Unknown error".to_string()));
    assert_eq!(
        SassFileContext::compile(1, Some("line 1: ü".as_bytes()), b""),
        Err("line 1: ü".to_string())
    );
}
