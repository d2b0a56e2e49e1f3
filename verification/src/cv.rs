//! One position of a résumé, and what its card shows.

use crate::decimal::{push_signed_decimal, signed_decimal};
use crate::outside::{file_extension, parse_year, parsed_year};
use vstd::prelude::*;
use vstd::string::*;

verus! {

/// A position held, as the résumé document lists it. Dates are ISO 8601
/// civil dates; `info_file` is the path of a longer write-up, if there is
/// one.
#[derive(Clone, Debug, PartialEq, Eq)]
pub struct WorkExperience {
    pub organization: String,
    pub position: String,
    pub url: Option<String>,
    pub location: Option<String>,
    pub start_date: String,
    pub end_date: String,
    pub highlights: Option<Vec<String>>,
    pub info_file: Option<String>,
}

/// What separates the two years of a span.
pub open spec fn year_separator() -> Seq<char> {
    seq![' ', '-', ' ']
}

/// The year line of a card: the year alone where the position began and
/// ended in the same year, else both years with a dash between.
pub open spec fn year_label_text(start_year: int, end_year: int) -> Seq<char> {
    if start_year == end_year {
        signed_decimal(start_year)
    } else {
        signed_decimal(start_year) + year_separator() + signed_decimal(end_year)
    }
}

/// Whether a position that ends in `end_year` is over when the calendar
/// shows `this_year`: it is unless it ends in a later year.
pub open spec fn is_over(end_year: int, this_year: int) -> bool {
    end_year <= this_year
}

/// The first entry of `highlights`, or the empty text where there is none.
pub open spec fn first_highlight(highlights: Option<Vec<String>>) -> Seq<char> {
    match highlights {
        Some(entries) => if entries@.len() > 0 {
            entries@[0]@
        } else {
            Seq::empty()
        },
        None => Seq::empty(),
    }
}

/// The extension that marks a write-up the overlay can show.
pub open spec fn markdown_extension() -> Seq<char> {
    seq!['m', 'd']
}

/// Builds the year line for a position that ran from `start_year` to
/// `end_year`.
pub fn year_label(start_year: i16, end_year: i16) -> (label: String)
    ensures
        label@ == year_label_text(start_year as int, end_year as int),
{
    let mut label = String::new();
    push_signed_decimal(&mut label, start_year);
    if start_year != end_year {
        proof {
            reveal_strlit(" - ");
        }
        label.append(" - ");
        push_signed_decimal(&mut label, end_year);
    }
    assert(label@ =~= year_label_text(start_year as int, end_year as int));
    label
}

/// Whether the "current role" marker stays hidden on the card of a position
/// that ends in `end_year`, when the calendar shows `this_year`.
pub fn current_marker_hidden(end_year: i16, this_year: i16) -> (hidden: bool)
    ensures
        hidden == is_over(end_year as int, this_year as int),
{
    end_year <= this_year
}

/// Whether a file with this extension is one the overlay can show.
pub fn is_markdown(extension: &Option<String>) -> (yes: bool)
    ensures
        yes == (extension matches Some(e) && e@ == markdown_extension()),
{
    match extension {
        Some(e) => {
            proof {
                reveal_strlit("md");
                assert("md"@ =~= markdown_extension());
            }
            let md = "md".to_owned();
            *e == md
        },
        None => false,
    }
}

impl WorkExperience {
    /// The years in which the position began and ended, where both dates
    /// can be read.
    pub fn years(&self) -> (span: Option<(i16, i16)>)
        ensures
            span == match (parsed_year(self.start_date@), parsed_year(self.end_date@)) {
                (Some(start), Some(end)) => Some((start, end)),
                _ => None,
            },
    {
        match parse_year(self.start_date.as_str()) {
            Some(start) => match parse_year(self.end_date.as_str()) {
                Some(end) => Some((start, end)),
                None => None,
            },
            None => None,
        }
    }

    /// The year line of the card, where both dates can be read.
    pub fn year_label(&self) -> (label: Option<String>)
        ensures
            match (parsed_year(self.start_date@), parsed_year(self.end_date@)) {
                (Some(start), Some(end)) => label matches Some(text) && text@ == year_label_text(
                    start as int,
                    end as int,
                ),
                _ => label is None,
            },
    {
        match self.years() {
            Some((start, end)) => Some(year_label(start, end)),
            None => None,
        }
    }

    /// Whether the card hides its "current role" marker when the calendar
    /// shows `this_year`, where the end date can be read.
    pub fn current_marker_hidden(&self, this_year: i16) -> (hidden: Option<bool>)
        ensures
            hidden == match parsed_year(self.end_date@) {
                Some(end) => Some(is_over(end as int, this_year as int)),
                None => None,
            },
    {
        match parse_year(self.end_date.as_str()) {
            Some(end) => Some(current_marker_hidden(end, this_year)),
            None => None,
        }
    }

    /// The line of description on the card: the first highlight, or nothing.
    pub fn description(&self) -> (text: String)
        ensures
            text@ == first_highlight(self.highlights),
    {
        match &self.highlights {
            Some(entries) => {
                if entries.len() > 0 {
                    entries[0].clone()
                } else {
                    String::new()
                }
            },
            None => String::new(),
        }
    }

    /// The file to read when the card is clicked, given the extension that
    /// the platform makes out in the write-up's path: the write-up's path
    /// where there is a write-up and the extension is that of Markdown,
    /// nothing otherwise.
    pub fn detail_request_given(&self, extension: &Option<String>) -> (path: Option<String>)
        ensures
            match self.info_file {
                Some(file) => if extension matches Some(e) && e@ == markdown_extension() {
                    path matches Some(p) && p@ == file@
                } else {
                    path is None
                },
                None => path is None,
            },
    {
        match &self.info_file {
            Some(file) => {
                if is_markdown(extension) {
                    Some(file.clone())
                } else {
                    None
                }
            },
            None => None,
        }
    }

    /// The file to read when the card is clicked: the write-up's path where
    /// there is one and its extension marks it as Markdown.
    ///
    /// The platform decides what the extension of a path is. Whatever it
    /// says, nothing but the write-up's own path is ever asked for, and a
    /// position without a write-up asks for nothing.
    pub fn detail_request(&self) -> (path: Option<String>)
        ensures
            path matches Some(p) ==> self.info_file matches Some(f) && p@ == f@,
            self.info_file is None ==> path is None,
    {
        match &self.info_file {
            Some(file) => {
                let extension = file_extension(file.as_str());
                self.detail_request_given(&extension)
            },
            None => None,
        }
    }
}

} // verus!
