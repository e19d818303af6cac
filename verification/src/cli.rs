//! The command line of the `sass-rs` program: which options its flags select.

use vstd::prelude::*;
use crate::options::{Options, OutputStyle};

verus! {

/// Compares two string slices (`str == str`).
#[verifier::external_body]
fn same_text(a: &str, b: &str) -> (r: bool)
    ensures
        r == (a@ == b@),
{
    a == b
}

/// Some argument equals `flag`.
pub open spec fn has_arg(args: Seq<String>, flag: Seq<char>) -> bool {
    exists|i: int| 0 <= i < args.len() && #[trigger] args[i]@ == flag
}

/// The output style that the flags select; a later flag in this list wins:
/// `--expanded`, `--compact`, `--compressed`.
pub open spec fn style_from_args(args: Seq<String>) -> OutputStyle {
    if has_arg(args, "--compressed"@) {
        OutputStyle::Compressed
    } else if has_arg(args, "--compact"@) {
        OutputStyle::Compact
    } else if has_arg(args, "--expanded"@) {
        OutputStyle::Expanded
    } else {
        OutputStyle::Nested
    }
}

/// Each style flag selects its style: `--compressed` whatever else is given,
/// `--compact` unless `--compressed` is given, `--expanded` unless one of
/// those two is given, and nested output when none of the three is given.
/// Other arguments, `--sass` among them, play no part.
pub proof fn style_flags_select_styles(args: Seq<String>)
    ensures
        has_arg(args, "--compressed"@) ==> style_from_args(args) == OutputStyle::Compressed,
        has_arg(args, "--compact"@) && !has_arg(args, "--compressed"@) ==> style_from_args(args)
            == OutputStyle::Compact,
        has_arg(args, "--expanded"@) && !has_arg(args, "--compact"@) && !has_arg(
            args,
            "--compressed"@,
        ) ==> style_from_args(args) == OutputStyle::Expanded,
        !has_arg(args, "--expanded"@) && !has_arg(args, "--compact"@) && !has_arg(
            args,
            "--compressed"@,
        ) ==> style_from_args(args) == OutputStyle::Nested,
{
}

/// An argument that is no style flag leaves the selected style as it was,
/// wherever it is added.
pub proof fn other_arguments_keep_the_style(args: Seq<String>, extra: String)
    requires
        extra@ != "--compressed"@,
        extra@ != "--compact"@,
        extra@ != "--expanded"@,
    ensures
        style_from_args(args.push(extra)) == style_from_args(args),
        style_from_args(seq![extra] + args) == style_from_args(args),
{
    assert forall|f: Seq<char>| f != extra@ implies has_arg(args.push(extra), f) == has_arg(
        args,
        f,
    ) by {
        if has_arg(args, f) {
            let i = choose|i: int| 0 <= i < args.len() && #[trigger] args[i]@ == f;
            assert(args.push(extra)[i]@ == f);
        }
        if has_arg(args.push(extra), f) {
            let i = choose|i: int| 0 <= i < args.len() + 1 && #[trigger] args.push(extra)[i]@ == f;
            assert(args[i]@ == f);
        }
    }
    assert forall|f: Seq<char>| f != extra@ implies has_arg(seq![extra] + args, f) == has_arg(
        args,
        f,
    ) by {
        if has_arg(args, f) {
            let i = choose|i: int| 0 <= i < args.len() && #[trigger] args[i]@ == f;
            assert((seq![extra] + args)[i + 1]@ == f);
        }
        if has_arg(seq![extra] + args, f) {
            let i = choose|i: int|
                0 <= i < args.len() + 1 && #[trigger] (seq![extra] + args)[i]@ == f;
            assert(args[i - 1]@ == f);
        }
    }
}

/// Whether some argument equals `flag`.
pub fn any_arg(args: &Vec<String>, flag: &str) -> (r: bool)
    ensures
        r == has_arg(args@, flag@),
{
    let mut i: usize = 0;
    while i < args.len()
        invariant
            i <= args@.len(),
            forall|j: int| 0 <= j < i ==> args@[j]@ != flag@,
        decreases args@.len() - i,
    {
        if same_text(args[i].as_str(), flag) {
            return true;
        }
        i = i + 1;
    }
    false
}

/// The options that the program's arguments select: `--sass` for the
/// indented syntax, `--expanded`, `--compact` or `--compressed` for the
/// output style; everything else as in `Options::default`.
pub fn options_from_args(args: &Vec<String>) -> (o: Options)
    ensures
        o.indented_syntax == has_arg(args@, "--sass"@),
        o.output_style == style_from_args(args@),
        o.precision == 5,
        o.include_paths@.len() == 0,
{
    let mut opts = Options::default();
    if any_arg(args, "--sass") {
        opts.indented_syntax = true;
    }
    if any_arg(args, "--expanded") {
        opts.output_style = OutputStyle::Expanded;
    }
    if any_arg(args, "--compact") {
        opts.output_style = OutputStyle::Compact;
    }
    if any_arg(args, "--compressed") {
        opts.output_style = OutputStyle::Compressed;
    }
    opts
}

} // verus!
