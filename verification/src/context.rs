//! The flavours of sass contexts (file and data), the option record that
//! libsass reads when it compiles, and what a finished compilation yields.
//!
//! A context here holds, as plain values, what the library decides about a
//! libsass context: where the input comes from and which option setters were
//! called with which values. The libsass calls themselves are made by the
//! program around the library, which copies this record into libsass.

use vstd::prelude::*;
use vstd::string::StringSliceAdditionalSpecFns;
use vstd::utf8::{decode_utf8, valid_utf8};
use crate::options::{Options, OutputStyle};
use crate::text::{
    build_string, decimal, encoding_nul_free, is_first_nul, lossy_utf8, no_nul_char, nul_position, push_decimal,
    push_text, to_string, views,
};

verus! {

/// A custom function registered with libsass: its signature and the slot
/// through which its calls are dispatched.
#[derive(Debug)]
pub struct FunctionEntry {
    pub signature: String,
    pub slot: usize,
}

/// The abstract content of the libsass option record: `None` (or `false`)
/// where no setter of the library ran, so that libsass keeps its default.
pub struct OptionsState {
    pub output_style: Option<OutputStyle>,
    pub precision: Option<usize>,
    pub is_indented_syntax: bool,
    pub include_paths: Option<Seq<Seq<char>>>,
    pub c_functions: Option<Seq<(Seq<char>, usize)>>,
}

/// The record of a fresh libsass context, where no setter ran yet.
pub open spec fn untouched() -> OptionsState {
    OptionsState {
        output_style: None,
        precision: None,
        is_indented_syntax: false,
        include_paths: None,
        c_functions: None,
    }
}

/// The views of a list of function entries.
pub open spec fn entry_views(list: Seq<FunctionEntry>) -> Seq<(Seq<char>, usize)> {
    list.map_values(|e: FunctionEntry| (e.signature@, e.slot))
}

/// What `Context::set_options` makes of an option record.
pub open spec fn applied(state: OptionsState, opts: Options) -> OptionsState {
    OptionsState {
        output_style: Some(opts.output_style),
        precision: Some(opts.precision),
        is_indented_syntax: state.is_indented_syntax || opts.indented_syntax,
        include_paths: if opts.include_paths@.len() > 0 {
            Some(views(opts.include_paths@))
        } else {
            state.include_paths
        },
        c_functions: state.c_functions,
    }
}

/// Applying options records the user's choices: exactly the chosen output
/// style and precision, the indented syntax when chosen (else as before),
/// and the chosen include paths, in order, when there are some (else as
/// before).
pub proof fn set_options_takes_the_users_choices(state: OptionsState, opts: Options)
    ensures
        applied(state, opts).output_style == Some(opts.output_style),
        applied(state, opts).precision == Some(opts.precision),
        opts.indented_syntax ==> applied(state, opts).is_indented_syntax,
        !opts.indented_syntax ==> applied(state, opts).is_indented_syntax
            == state.is_indented_syntax,
        opts.include_paths@.len() > 0 ==> (applied(state, opts).include_paths matches Some(p)
            && p.len() == opts.include_paths@.len() && forall|i: int|
            0 <= i < p.len() ==> #[trigger] p[i] == opts.include_paths@[i]@),
        opts.include_paths@.len() == 0 ==> applied(state, opts).include_paths
            == state.include_paths,
{
}

/// Applying the same options twice leaves the record as applying them once.
pub proof fn set_options_idempotent(state: OptionsState, opts: Options)
    ensures
        applied(applied(state, opts), opts) == applied(state, opts),
{
}

/// Applying options decides the output style and the precision whatever
/// style was set before.
pub proof fn set_options_overrides_output_style(
    state: OptionsState,
    style: OutputStyle,
    opts: Options,
)
    ensures
        applied(OptionsState { output_style: Some(style), ..state }, opts) == applied(state, opts),
{
}

/// Once the indented syntax is on, applying options never turns it off,
/// and the custom functions are left as they were.
pub proof fn set_options_keeps_syntax_and_functions(state: OptionsState, opts: Options)
    ensures
        state.is_indented_syntax ==> applied(state, opts).is_indented_syntax,
        applied(state, opts).c_functions == state.c_functions,
{
}

/// The option record of a libsass context, as the library's setters left it.
pub struct SassOptions {
    pub output_style: Option<OutputStyle>,
    pub precision: Option<usize>,
    pub is_indented_syntax: bool,
    pub include_paths: Option<Vec<String>>,
    pub c_functions: Option<Vec<FunctionEntry>>,
}

impl View for SassOptions {
    type V = OptionsState;

    open spec fn view(&self) -> OptionsState {
        OptionsState {
            output_style: self.output_style,
            precision: self.precision,
            is_indented_syntax: self.is_indented_syntax,
            include_paths: match self.include_paths {
                Some(v) => Some(views(v@)),
                None => None,
            },
            c_functions: match self.c_functions {
                Some(v) => Some(entry_views(v@)),
                None => None,
            },
        }
    }
}

impl SassOptions {
    /// The record of a fresh context.
    pub fn new() -> (o: SassOptions)
        ensures
            o@ == untouched(),
    {
        SassOptions {
            output_style: None,
            precision: None,
            is_indented_syntax: false,
            include_paths: None,
            c_functions: None,
        }
    }

    /// Sets the output style.
    pub fn set_output_style(&mut self, style: OutputStyle)
        ensures
            final(self)@ == (OptionsState { output_style: Some(style), ..old(self)@ }),
    {
        self.output_style = Some(style);
    }

    /// Sets the number of digits after the decimal point.
    pub fn set_precision(&mut self, precision: usize)
        ensures
            final(self)@ == (OptionsState { precision: Some(precision), ..old(self)@ }),
    {
        self.precision = Some(precision);
    }

    /// Switches the input syntax to the indented (Sass) syntax.
    pub fn set_is_indented_syntax(&mut self)
        ensures
            final(self)@ == (OptionsState { is_indented_syntax: true, ..old(self)@ }),
    {
        self.is_indented_syntax = true;
    }

    /// Sets the list of include paths.
    pub fn set_include_path(&mut self, paths: Vec<String>)
        ensures
            final(self)@ == (OptionsState { include_paths: Some(views(paths@)), ..old(self)@ }),
    {
        self.include_paths = Some(paths);
    }

    /// Sets the list of custom functions, in the order given.
    pub fn set_sass_functions(&mut self, sf: Vec<FunctionEntry>)
        ensures
            final(self)@ == (OptionsState { c_functions: Some(entry_views(sf@)), ..old(self)@ }),
    {
        self.c_functions = Some(sf);
    }

    /// Applies the user's options: output style and precision always, the
    /// indented syntax only when asked for, the include paths only when there
    /// are some.
    pub fn apply(&mut self, options: Options)
        ensures
            final(self)@ == applied(old(self)@, options),
    {
        self.set_output_style(options.output_style);
        self.set_precision(options.precision);
        if options.indented_syntax {
            self.set_is_indented_syntax();
        }
        if options.include_paths.len() > 0 {
            self.set_include_path(options.include_paths);
        }
    }
}

/// The compiler state shared by both flavours of context.
pub struct SassContext {
    pub options: SassOptions,
}

/// A context that compiles a file.
pub struct SassFileContext {
    pub path: String,
    pub sass_context: SassContext,
}

/// A context that compiles a string.
pub struct SassDataContext {
    pub data: String,
    pub sass_context: SassContext,
}

/// A libsass context of either flavour.
pub enum Context {
    File(SassFileContext),
    Data(SassDataContext),
}

/// The text of the error that `new_file` gives for a path whose first NUL
/// byte stands at `pos`.
pub open spec fn nul_error_text(pos: nat) -> Seq<char> {
    "Failed to create CString: nul byte found in provided data at position: "@ + decimal(pos)
}

/// The message given when libsass reports an error without a message.
pub open spec fn no_message_text() -> Seq<char> {
    "An error occurred; no error message available."@
}

/// The message given by the file context when libsass reports an error
/// without a message.
pub open spec fn unknown_error_text() -> Seq<char> {
    "Unknown error"@
}

impl Context {
    /// The option record of the context.
    pub open spec fn options_view(self) -> OptionsState {
        match self {
            Context::File(s) => s.sass_context.options@,
            Context::Data(s) => s.sass_context.options@,
        }
    }

    /// The input of the context: the path of a file context, the data of a
    /// data context.
    pub open spec fn input_view(self) -> Seq<char> {
        match self {
            Context::File(s) => s.path@,
            Context::Data(s) => s.data@,
        }
    }

    /// A context that compiles the string `data`; the string must pass as a
    /// C string.
    pub fn new_data(data: &str) -> (c: Context)
        requires
            no_nul_char(data@),
        ensures
            c is Data,
            c.input_view() == data@,
            c.options_view() == untouched(),
    {
        Context::Data(
            SassDataContext {
                data: data.to_owned(),
                sass_context: SassContext { options: SassOptions::new() },
            },
        )
    }

    /// A context that compiles the file at `path`, or the error that the
    /// conversion of the path to a C string gives.
    pub fn new_file(path: &str) -> (r: Result<Context, String>)
        ensures
            r is Ok <==> no_nul_char(path@),
            r matches Ok(c) ==> c is File && c.input_view() == path@ && c.options_view()
                == untouched(),
            r matches Err(e) ==> exists|p: int|
                is_first_nul(path.spec_bytes(), p) && e@ == nul_error_text(p as nat),
    {
        proof {
            encoding_nul_free(path@);
        }
        match nul_position(path.as_bytes()) {
            Some(p) => {
                let mut e = String::new();
                push_text(&mut e, "Failed to create CString: nul byte found in provided data at position: ");
                push_decimal(&mut e, p as u64);
                assert(e@ == nul_error_text(p as nat));
                Err(e)
            },
            None => Ok(
                Context::File(
                    SassFileContext {
                        path: path.to_owned(),
                        sass_context: SassContext { options: SassOptions::new() },
                    },
                ),
            ),
        }
    }

    /// Applies the user's options to the context's option record.
    pub fn set_options(&mut self, options: Options)
        ensures
            final(self).options_view() == applied(old(self).options_view(), options),
            final(self).input_view() == old(self).input_view(),
            (*final(self) is File) <==> (*old(self) is File),
    {
        match self {
            Context::File(s) => s.sass_context.options.apply(options),
            Context::Data(s) => s.sass_context.options.apply(options),
        }
    }

    /// Sets the output style alone.
    pub fn set_output_style(&mut self, output_style: OutputStyle)
        ensures
            final(self).options_view() == (OptionsState {
                output_style: Some(output_style),
                ..old(self).options_view()
            }),
            final(self).input_view() == old(self).input_view(),
            (*final(self) is File) <==> (*old(self) is File),
    {
        match self {
            Context::File(s) => s.sass_context.options.set_output_style(output_style),
            Context::Data(s) => s.sass_context.options.set_output_style(output_style),
        }
    }
}

/// What a compilation yields, from what libsass reports after it: the error
/// status, the error message (absent when libsass gives none) and the
/// output, each message decoded from UTF-8 with invalid bytes replaced.
pub fn compile_outcome(error_status: i32, error_message: Option<&[u8]>, output: &[u8]) -> (r:
    Result<String, String>)
    ensures
        r is Ok <==> error_status == 0,
        r matches Ok(s) ==> s@ == lossy_utf8(output@),
        r matches Err(e) ==> e@ == match error_message {
            Some(m) => lossy_utf8(m@),
            None => no_message_text(),
        },
{
    if error_status != 0 {
        match error_message {
            Some(m) => Err(to_string(m)),
            None => {
                let mut e = String::new();
                push_text(&mut e, "An error occurred; no error message available.");
                assert(e@ =~= no_message_text());
                Err(e)
            },
        }
    } else {
        Ok(to_string(output))
    }
}

impl SassFileContext {
    /// What the compilation of a file context yields, from what libsass
    /// reports after it; the reported texts must be valid UTF-8.
    pub fn compile(error_status: i32, error_message: Option<&[u8]>, output: &[u8]) -> (r: Result<
        String,
        String,
    >)
        requires
            error_status != 0 ==> (error_message matches Some(m) ==> valid_utf8(m@)),
            error_status == 0 ==> valid_utf8(output@),
        ensures
            r is Ok <==> error_status == 0,
            r matches Ok(s) ==> s@ == decode_utf8(output@),
            r matches Err(e) ==> e@ == match error_message {
                Some(m) => decode_utf8(m@),
                None => unknown_error_text(),
            },
    {
        if error_status != 0 {
            match error_message {
                Some(m) => Err(build_string(m)),
                None => {
                    let mut e = String::new();
                    push_text(&mut e, "Unknown error");
                    assert(e@ =~= unknown_error_text());
                    Err(e)
                },
            }
        } else {
            Ok(build_string(output))
        }
    }
}

} // verus!
