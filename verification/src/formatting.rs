//! Positional `{}` placeholder substitution, applied after lookup.

use vstd::prelude::*;
use dynfmt::Format;

verus! {

/// Error returned when placeholder substitution fails: the placeholders do
/// not match the given arguments, or an argument cannot be rendered.
#[derive(Clone, Copy, Debug, PartialEq, Eq, Structural)]
pub struct FormatError;

/// The views of a sequence of argument strings.
pub open spec fn seq_views(args: Seq<String>) -> Seq<Seq<char>> {
    args.map_values(|s: String| s@)
}

/// What the simple curly formatter returns for a template and a list of
/// positional arguments: `Some` of the substituted text on success, `None`
/// when substitution fails.
pub uninterp spec fn curly_formatted(template: Seq<char>, args: Seq<Seq<char>>) -> Option<Seq<char>>;

/// Relies on dynfmt's `SimpleCurlyFormat::format`: substitutes the arguments,
/// rendered as text, for the `{}` placeholders of the template left to right,
/// and fails when a placeholder has no matching argument; the outcome is a
/// function of the template and the arguments alone.
#[verifier::external_body]
fn curly_format(template: &str, args: &Vec<String>) -> (r: Option<String>)
    ensures
        match r {
            Some(s) => curly_formatted(template@, seq_views(args@)) == Some(s@),
            None => curly_formatted(template@, seq_views(args@)) is None,
        },
{
    match dynfmt::SimpleCurlyFormat.format(template, args) {
        Ok(s) => Some(s.into_owned()),
        Err(_) => None,
    }
}

/// Substitutes the positional arguments for the template's `{}` placeholders,
/// left to right. Fails with [`FormatError`] exactly when the placeholders
/// cannot all be filled from the arguments; absence of placeholders is not a
/// failure.
pub fn format(template: &str, args: &Vec<String>) -> (r: Result<String, FormatError>)
    ensures
        match r {
            Ok(s) => curly_formatted(template@, seq_views(args@)) == Some(s@),
            Err(_) => curly_formatted(template@, seq_views(args@)) is None,
        },
{
    match curly_format(template, args) {
        Some(s) => Ok(s),
        None => Err(FormatError),
    }
}

} // verus!
