use sass_rs::cli::{any_arg, options_from_args};
use sass_rs::text::{build_string, decimal_text, join_with, nul_position, to_string};
use sass_rs::OutputStyle;

fn args(list: &[&str]) -> Vec<String> {
    list.iter().map(|s| s.to_string()).collect()
}

#[test]
fn no_flags_give_default_options() {
    let o = options_from_args(&args(&["sass-rs"]));
    assert_eq!(o.output_style, OutputStyle::Nested);
    assert!(!o.indented_syntax);
    assert_eq!(o.precision, 5);
    assert!(o.include_paths.is_empty());
}

#[test]
fn sass_flag_selects_indented_syntax() {
    let o = options_from_args(&args(&["sass-rs", "--sass"]));
    assert!(o.indented_syntax);
    assert_eq!(o.output_style, OutputStyle::Nested);
}

#[test]
fn style_flags_select_styles() {
    assert_eq!(
        options_from_args(&args(&["sass-rs", "--sass", "--expanded"])).output_style,
        OutputStyle::Expanded
    );
    assert_eq!(
        options_from_args(&args(&["sass-rs", "--sass", "--compact"])).output_style,
        OutputStyle::Compact
    );
    assert_eq!(
        options_from_args(&args(&["sass-rs", "--sass", "--compressed"])).output_style,
        OutputStyle::Compressed
    );
}

#[test]
fn compressed_wins_over_other_styles() {
    let o = options_from_args(&args(&["sass-rs", "--compressed", "--expanded", "--compact"]));
    assert_eq!(o.output_style, OutputStyle::Compressed);
    let o = options_from_args(&args(&["sass-rs", "--compact", "--expanded"]));
    assert_eq!(o.output_style, OutputStyle::Compact);
    assert!(!any_arg(&args(&["sass-rs", "--sassy"]), "--sass"));
}

#[test]
fn nul_positions() {
    assert_eq!(nul_position(b"abc"), None);
    assert_eq!(nul_position(b""), None);
    assert_eq!(nul_position(b"\0"), Some(0));
    assert_eq!(nul_position(b"ab\0c\0"), Some(2));
}

#[test]
fn decimal_texts() {
    assert_eq!(decimal_text(0), "0");
    assert_eq!(decimal_text(7), "7");
    assert_eq!(decimal_text(10), "10");
    assert_eq!(decimal_text(1234567890), "1234567890");
    assert_eq!(decimal_text(u64::MAX), "18446744073709551615");
}

#[test]
fn joining_include_paths() {
    assert_eq!(join_with(&args(&[]), ':'), "");
    assert_eq!(join_with(&args(&["a"]), ':'), "a");
    assert_eq!(join_with(&args(&["a", "b/c", ""]), ':'), "a:b/c:");
    assert_eq!(join_with(&args(&["x", "y"]), ';'), "x;y");
}

#[test]
fn decoding_c_strings() {
    assert_eq!(to_string(b"plain"), "plain");
    assert_eq!(to_string("ünï".as_bytes()), "ünï");
    assert_eq!(to_string(b"\xf0\x28\x8c\x28"), "\u{FFFD}(\u{FFFD}(");
    assert_eq!(build_string("ünï".as_bytes()), "ünï");
    assert_eq!(build_string(b""), "");
}
