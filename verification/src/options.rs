//! The user-facing options of a Sass compilation.

use vstd::prelude::*;

verus! {

/// The layout of the generated CSS.
#[derive(Debug, Clone, Copy, PartialEq, Eq, Structural)]
pub enum OutputStyle {
    Nested,
    Expanded,
    Compact,
    Compressed,
}

/// The user facing options, where callers select the libsass options.
#[derive(Debug, Clone, PartialEq)]
pub struct Options {
    /// The output format of the final CSS style.
    pub output_style: OutputStyle,
    /// How many digits after the decimal will be allowed.
    pub precision: usize,
    /// `true` values enable Sass Indented Syntax for parsing the data string or file.
    pub indented_syntax: bool,
    /// An array of paths that LibSass can look in to attempt to resolve `@import` declarations.
    pub include_paths: Vec<String>,
}

impl Default for Options {
    /// Nested output, five digits of precision, SCSS syntax and no include paths.
    fn default() -> (o: Options)
        ensures
            o.output_style == OutputStyle::Nested,
            o.precision == 5,
            !o.indented_syntax,
            o.include_paths@.len() == 0,
    {
        Options {
            output_style: OutputStyle::Nested,
            precision: 5,
            indented_syntax: false,
            include_paths: Vec::new(),
        }
    }
}

} // verus!
