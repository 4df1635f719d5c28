//! Calls into code that is not verified here. Each contract below is
//! believed, not proved.
use vstd::prelude::*;

verus! {

/// What `str::parse::<u16>` makes of a text: the number, or the message of
/// the error that it returns.
pub uninterp spec fn parsed_port(s: Seq<char>) -> Result<u16, Seq<char>>;

/// Whether `char::is_alphabetic` holds of a character: whether it has the
/// Unicode property `Alphabetic`.
pub uninterp spec fn alphabetic(c: char) -> bool;

/// The number of terminal columns that `unicode_width` gives a text.
pub uninterp spec fn columns(s: Seq<char>) -> usize;

/// Calls `str::parse::<u16>` and turns its error into the error's message.
/// The contract claims only that the result depends on nothing but the text.
#[verifier::external_body]
pub(crate) fn parse_port(s: &str) -> (r: Result<u16, String>)
    ensures
        match r {
            Ok(port) => parsed_port(s@) == Ok::<u16, Seq<char>>(port),
            Err(err) => parsed_port(s@) == Err::<u16, Seq<char>>(err@),
        },
{
    match s.parse::<u16>() {
        Ok(port) => Ok(port),
        Err(err) => Err(err.to_string()),
    }
}

/// Calls `char::is_alphabetic`. The contract claims only that the result
/// depends on nothing but the character.
#[verifier::external_body]
pub(crate) fn is_alphabetic(c: char) -> (r: bool)
    ensures
        r == alphabetic(c),
{
    c.is_alphabetic()
}

/// Calls `unicode_width::UnicodeWidthStr::width`, which sums the column
/// widths of the characters with wrapping addition and never fails. The
/// contract claims only that the result depends on nothing but the text.
#[verifier::external_body]
pub(crate) fn display_width(s: &str) -> (r: usize)
    ensures
        r == columns(s@),
{
    unicode_width::UnicodeWidthStr::width(s)
}

} // verus!
