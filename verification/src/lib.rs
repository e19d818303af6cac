//! The library side of a libsass binding: the user's options, the option
//! record that a libsass context is compiled with, what a compilation
//! yields, Sass values and the dispatch of custom functions.
//!
//! libsass itself is driven by the program around the library: it creates
//! the context that the library prepared, copies the option record into it,
//! compiles, and hands what libsass reports to `context::compile_outcome`.

use vstd::prelude::*;
use vstd::string::StringSliceAdditionalSpecFns;

pub mod options;
pub mod text;
pub mod context;
pub mod value;
pub mod dispatch;
pub mod cli;

pub use options::{Options, OutputStyle};
pub use context::Context;

use context::{applied, untouched};
use text::{is_first_nul, no_nul_char};

verus! {

/// Prepares the compilation of the file at `path` with the options given:
/// the file context, with the options applied, that libsass then compiles;
/// or the error that the conversion of the path to a C string gives.
pub fn compile_file(path: &str, options: Options) -> (r: Result<Context, String>)
    ensures
        r is Ok <==> no_nul_char(path@),
        r matches Ok(c) ==> c is File && c.input_view() == path@ && c.options_view() == applied(
            untouched(),
            options,
        ),
        r matches Err(e) ==> exists|p: int|
            is_first_nul(path.spec_bytes(), p) && e@ == context::nul_error_text(p as nat),
{
    match Context::new_file(path) {
        Ok(mut context) => {
            context.set_options(options);
            Ok(context)
        },
        Err(e) => Err(e),
    }
}

/// Prepares the compilation of the string `content` with the options given:
/// the data context, with the options applied, that libsass then compiles.
/// The content must pass as a C string.
pub fn compile_string(content: &str, options: Options) -> (c: Context)
    requires
        no_nul_char(content@),
    ensures
        c is Data,
        c.input_view() == content@,
        c.options_view() == applied(untouched(), options),
{
    let mut context = Context::new_data(content);
    context.set_options(options);
    context
}

} // verus!
