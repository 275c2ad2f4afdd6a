//! The lines that a run writes, and the two renderings they are made of.

use vstd::prelude::*;

verus! {

/// The text that `byte_unit` shows for a number of bytes in the unit of the
/// decimal scale that suits it, such as `1.5 KB`.
pub uninterp spec fn human_size_text(bytes: u64) -> Seq<char>;

/// The text that `{:?}` shows for a string: the string between double quotes,
/// with its special characters escaped.
pub uninterp spec fn quoted_text(text: Seq<char>) -> Seq<char>;

/// Renders a byte count for the operator.
///
/// Calls `byte_unit::Byte::from_u64`, `Byte::get_appropriate_unit` with
/// `UnitType::Decimal`, and the `Display` of the `AdjustedByte` that comes
/// back. The contract claims only that the text depends on the byte count
/// alone.
#[verifier::external_body]
pub(crate) fn human_size(bytes: u64) -> (text: String)
    ensures
        text@ == human_size_text(bytes),
{
    byte_unit::Byte::from_u64(bytes).get_appropriate_unit(byte_unit::UnitType::Decimal).to_string()
}

/// Puts a text between quotes as `{:?}` does.
///
/// Calls the `Debug` formatting of `str` through `format!`. The contract
/// claims only that the result depends on the text alone.
#[verifier::external_body]
pub(crate) fn quoted(text: &str) -> (shown: String)
    ensures
        shown@ == quoted_text(text@),
{
    format!("{:?}", text)
}

/// The line that reports a virtual environment that was found.
pub open spec fn found_text(shown_path: Seq<char>, shown_size: Seq<char>) -> Seq<char> {
    "Found "@ + shown_path + " ("@ + shown_size + ")"@
}

/// The line that reports a virtual environment that was removed.
pub open spec fn deleted_text(shown_path: Seq<char>, shown_size: Seq<char>) -> Seq<char> {
    "Deleted "@ + shown_path + " ("@ + shown_size + ")"@
}

/// The question put to the operator before a removal.
pub open spec fn prompt_text(path: Seq<char>, shown_size: Seq<char>) -> Seq<char> {
    "Delete this? "@ + path + " ("@ + shown_size + ")"@
}

/// The closing line of a run.
pub open spec fn summary_text(delete: bool, shown_size: Seq<char>) -> Seq<char> {
    if delete {
        "Deleted "@ + shown_size + " of virtualenvs"@
    } else {
        "Found "@ + shown_size + " of virtualenvs"@
    }
}

/// A label followed by what it announces.
pub open spec fn labelled_text(label: Seq<char>, shown: Seq<char>) -> Seq<char> {
    label + shown
}

/// `head`, then `path`, then `size` in round brackets.
fn sized_line(head: &str, path: &str, size: &str) -> (line: String)
    ensures
        line@ == head@ + path@ + " ("@ + size@ + ")"@,
{
    let mut line = String::from_str(head);
    line.append(path);
    line.append(" (");
    line.append(size);
    line.append(")");
    line
}

/// The line for a virtual environment that was found, from its path and
/// size as they are to be shown.
pub fn found_line(shown_path: &str, shown_size: &str) -> (line: String)
    ensures
        line@ == found_text(shown_path@, shown_size@),
{
    sized_line("Found ", shown_path, shown_size)
}

/// The line for a virtual environment that was removed.
pub fn deleted_line(shown_path: &str, shown_size: &str) -> (line: String)
    ensures
        line@ == deleted_text(shown_path@, shown_size@),
{
    sized_line("Deleted ", shown_path, shown_size)
}

/// The question whether to remove the virtual environment at `path`.
pub fn confirm_prompt(path: &str, shown_size: &str) -> (line: String)
    ensures
        line@ == prompt_text(path@, shown_size@),
{
    sized_line("Delete this? ", path, shown_size)
}

/// The closing line: how much was removed in delete mode, how much was
/// found otherwise.
pub fn summary_line(delete: bool, shown_size: &str) -> (line: String)
    ensures
        line@ == summary_text(delete, shown_size@),
{
    let mut line = if delete {
        String::from_str("Deleted ")
    } else {
        String::from_str("Found ")
    };
    line.append(shown_size);
    line.append(" of virtualenvs");
    line
}

/// A label followed by what it announces.
pub fn labelled(label: &str, shown: &str) -> (line: String)
    ensures
        line@ == labelled_text(label@, shown@),
{
    let mut line = String::from_str(label);
    line.append(shown);
    line
}

/// The closing line for a total in bytes.
pub fn summary_of(delete: bool, bytes: u64) -> (line: String)
    ensures
        line@ == summary_text(delete, human_size_text(bytes)),
{
    let shown = human_size(bytes);
    summary_line(delete, shown.as_str())
}

} // verus!
