//! Search filters built from the optional title and author of a request.
use vstd::prelude::*;

verus! {

/// The view of an optional text field.
pub open spec fn opt_text(o: Option<String>) -> Option<Seq<char>> {
    match o {
        Some(s) => Some(s@),
        None => None,
    }
}

/// A copy of an optional text field.
pub fn copy_text(o: &Option<String>) -> (r: Option<String>)
    ensures
        r == *o,
{
    match o {
        Some(s) => Some(s.clone()),
        None => None,
    }
}

/// Which records a search selects, from the most to the least selective.
#[derive(Debug, Clone)]
pub enum BookFilter {
    TitleAndAuthor { title: String, author: String },
    Title { title: String },
    Author { author: String },
    All,
}

impl BookFilter {
    /// Whether a record with this title and author is selected.
    pub open spec fn selects(self, title: Option<Seq<char>>, author: Option<Seq<char>>) -> bool {
        match self {
            BookFilter::TitleAndAuthor { title: t, author: a } => title == Some(t@) && author
                == Some(a@),
            BookFilter::Title { title: t } => title == Some(t@),
            BookFilter::Author { author: a } => author == Some(a@),
            BookFilter::All => true,
        }
    }
}

/// The filter of a search: both fields when both are given, else the one
/// that is given, else a filter that selects every record.
pub open spec fn filter_of(title: Option<String>, author: Option<String>) -> BookFilter {
    match (title, author) {
        (Some(t), Some(a)) => BookFilter::TitleAndAuthor { title: t, author: a },
        (Some(t), None) => BookFilter::Title { title: t },
        (None, Some(a)) => BookFilter::Author { author: a },
        (None, None) => BookFilter::All,
    }
}

/// Builds the filter of a search: both fields when both are given, else the
/// one that is given, else a filter that selects every record.
pub fn build_filter(title: &Option<String>, author: &Option<String>) -> (r: BookFilter)
    ensures
        r == filter_of(*title, *author),
{
    match (title, author) {
        (Some(t), Some(a)) => BookFilter::TitleAndAuthor { title: t.clone(), author: a.clone() },
        (Some(t), None) => BookFilter::Title { title: t.clone() },
        (None, Some(a)) => BookFilter::Author { author: a.clone() },
        (None, None) => BookFilter::All,
    }
}

/// The filter of a search selects exactly the records that agree with it on
/// every field that the search gives; a search that gives neither field
/// selects every record.
pub proof fn lemma_filter_selects_agreeing(
    title: Option<String>,
    author: Option<String>,
    rec_title: Option<Seq<char>>,
    rec_author: Option<Seq<char>>,
)
    ensures
        filter_of(title, author).selects(rec_title, rec_author) <==> ((title is Some ==> rec_title == opt_text(
            title,
        )) && (author is Some ==> rec_author == opt_text(author))),
{
}

} // verus!
