//! Values in words.

use vstd::prelude::*;

verus! {

/// Where a value is written in words.
#[verifier::external_type_specification]
#[verifier::external_body]
pub struct ExFormatter<'a>(std::fmt::Formatter<'a>);

/// Why a value could not be written in words.
#[verifier::external_type_specification]
#[verifier::external_body]
pub struct ExFmtError(std::fmt::Error);

/// The text that was written to a formatter so far.
pub uninterp spec fn written(formatter: std::fmt::Formatter<'_>) -> Seq<char>;

/// `Formatter::write_str`: the text is written behind what was written before. Whether the
/// writing succeeds is up to where the text goes; if it fails, nothing is claimed.
#[verifier::external_body]
pub(crate) fn write_text(formatter: &mut std::fmt::Formatter<'_>, text: &str) -> (done: Result<
    (),
    std::fmt::Error,
>)
    ensures
        done is Ok ==> written(*final(formatter)) == written(*old(formatter)) + text@,
{
    formatter.write_str(text)
}

} // verus!
