//! The calls this crate makes into other crates and into parts of the
//! standard library that the verifier has no account of. Each contract
//! below is taken on trust from the callee's documentation and source;
//! everything else in the crate is proved from them.

use std::str::FromStr;
use vstd::prelude::*;

verus! {

/// The year of the civil date that `jiff::civil::Date::from_str` reads from
/// `text`, or `None` where it reports an error.
pub uninterp spec fn parsed_year(text: Seq<char>) -> Option<i16>;

/// Calls `jiff::civil::Date::from_str` on `text` and, where it succeeds,
/// `Date::year` on the date.
///
/// Trusted: parsing looks at the text alone, so equal texts fare alike.
#[verifier::external_body]
pub(crate) fn parse_year(text: &str) -> (year: Option<i16>)
    ensures
        year == parsed_year(text@),
{
    match jiff::civil::Date::from_str(text) {
        Ok(date) => Some(date.year()),
        Err(_) => None,
    }
}

/// The text that `lipsum::lipsum` generates for `words` words.
pub uninterp spec fn filler_text(words: usize) -> Seq<char>;

/// Calls `lipsum::lipsum`.
///
/// Trusted: the generator walks a fixed chain with a generator of fixed
/// seed, so the text depends on the number of words alone.
#[verifier::external_body]
pub(crate) fn filler(words: usize) -> (text: String)
    ensures
        text@ == filler_text(words),
{
    lipsum::lipsum(words)
}

/// Calls `std::path::Path::extension` on `path`.
///
/// What counts as a file name differs between platforms, so nothing is
/// claimed of the answer.
#[verifier::external_body]
pub(crate) fn file_extension(path: &str) -> (extension: Option<String>) {
    match std::path::Path::new(path).extension() {
        Some(ext) => Some(ext.to_string_lossy().into_owned()),
        None => None,
    }
}

} // verus!
