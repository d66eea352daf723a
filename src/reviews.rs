//! The review service: rater scores collected under each book, and their
//! average.
use vstd::prelude::*;

use crate::clock::{now, Timestamp};
use crate::fields::{get_or_err, MissingField};
use crate::query::{copy_text, opt_text};

verus! {

/// One rater's score of a book.
#[derive(Debug, Clone)]
pub struct Score {
    pub reference: Option<String>,
    pub rating: Option<i32>,
}

/// A book with the scores recorded for it.
#[derive(Debug, Clone)]
pub struct Book {
    pub title: Option<String>,
    pub author: Option<String>,
    pub year: Option<i32>,
    pub scores: Option<Vec<Score>>,
    pub last_modified: Option<Timestamp>,
}

/// A score as a client submits it, its rating already a whole number.
#[derive(Debug, Clone)]
pub struct ScoreSubmission {
    pub title: Option<String>,
    pub author: Option<String>,
    pub year: Option<i32>,
    pub reference: Option<String>,
    pub rating: Option<i32>,
}

/// The sum of a book's ratings and the number of its scores.
#[derive(Debug, Clone, Copy, PartialEq, Eq, Structural)]
pub struct ScoreAverage {
    pub total: i128,
    pub count: usize,
}

/// What a client is shown of a book: its fields, the average of its scores
/// and a note that says whether there is one.
#[derive(Debug, Clone)]
pub struct ScoreReport {
    pub title: Option<String>,
    pub author: Option<String>,
    pub year: Option<i32>,
    pub note: Option<String>,
    pub average: Option<ScoreAverage>,
}

pub open spec fn rating_or_zero(s: Score) -> int {
    match s.rating {
        Some(v) => v as int,
        None => 0,
    }
}

/// The sum of the ratings, an absent rating counting as zero.
pub open spec fn rating_total(s: Seq<Score>) -> int
    decreases s.len(),
{
    if s.len() == 0 {
        0
    } else {
        rating_total(s.drop_last()) + rating_or_zero(s.last())
    }
}

pub open spec fn note_of(average: Option<ScoreAverage>) -> Seq<char> {
    if average is Some {
        "Average score across all reviews"@
    } else {
        "No scores recorded"@
    }
}

pub fn book_payload_to_book(book_payload: &ScoreSubmission) -> (r: Book)
    ensures
        r.title == book_payload.title,
        r.author == book_payload.author,
        r.year == book_payload.year,
        r.scores is Some,
        r.scores->Some_0@ == seq![
            Score { reference: book_payload.reference, rating: book_payload.rating },
        ],
        r.last_modified is None,
{
    let scores = vec![
        Score { reference: copy_text(&book_payload.reference), rating: book_payload.rating },
    ];
    Book {
        title: copy_text(&book_payload.title),
        author: copy_text(&book_payload.author),
        year: book_payload.year,
        scores: Some(scores),
        last_modified: None,
    }
}

proof fn lemma_rating_total_bound(s: Seq<Score>)
    ensures
        -0x8000_0000 * s.len() <= rating_total(s) <= 0x8000_0000 * s.len(),
    decreases s.len(),
{
    if s.len() > 0 {
        lemma_rating_total_bound(s.drop_last());
    }
}

/// The sum and count of the scores; none for an empty list, whose average is
/// undefined. Each score counts in the divisor, also one without a rating.
pub fn average_of(scores: &Vec<Score>) -> (r: Option<ScoreAverage>)
    ensures
        r is None <==> scores@.len() == 0,
        r is Some ==> r->Some_0.total == rating_total(scores@) && r->Some_0.count == scores@.len(),
{
    let mut total: i128 = 0;
    let mut i: usize = 0;
    while i < scores.len()
        invariant
            i <= scores@.len(),
            total == rating_total(scores@.subrange(0, i as int)),
        decreases scores@.len() - i,
    {
        proof {
            assert(scores@.subrange(0, i + 1).drop_last() =~= scores@.subrange(0, i as int));
            lemma_rating_total_bound(scores@.subrange(0, i as int));
        }
        let rating: i32 = match scores[i].rating {
            Some(v) => v,
            None => 0,
        };
        total = total + rating as i128;
        i = i + 1;
    }
    assert(scores@.subrange(0, i as int) =~= scores@);
    if i == 0 {
        None
    } else {
        Some(ScoreAverage { total, count: i })
    }
}

pub fn book_to_book_payload(optional_book: &Option<Book>) -> (r: ScoreReport)
    ensures
        match *optional_book {
            None => r.title is None && r.author is None && r.year is None && r.note is None
                && r.average is None,
            Some(book) => {
                &&& r.title == book.title
                &&& r.author == book.author
                &&& r.year == book.year
                &&& r.average is Some <==> (book.scores is Some && book.scores->Some_0@.len() > 0)
                &&& r.average is Some ==> r.average->Some_0.total == rating_total(
                    book.scores->Some_0@,
                ) && r.average->Some_0.count == book.scores->Some_0@.len()
                &&& r.note is Some && r.note->Some_0@ == note_of(r.average)
            },
        },
{
    match optional_book {
        Some(book) => {
            let average = match &book.scores {
                Some(scores) => average_of(scores),
                None => None,
            };
            let note = if average.is_some() {
                String::from_str("Average score across all reviews")
            } else {
                String::from_str("No scores recorded")
            };
            ScoreReport {
                title: copy_text(&book.title),
                author: copy_text(&book.author),
                year: book.year,
                note: Some(note),
                average,
            }
        },
        None => ScoreReport { title: None, author: None, year: None, note: None, average: None },
    }
}

/// The title and author by which a book's scores are looked up.
#[derive(Debug, Clone)]
pub struct ReviewKey {
    pub title: String,
    pub author: String,
}

/// The key of a lookup: none unless both title and author are given, in which
/// case nothing is looked up.
pub fn search_key(book: &Book) -> (r: Option<ReviewKey>)
    ensures
        r is Some <==> (book.title is Some && book.author is Some),
        r is Some ==> r->Some_0 == (ReviewKey {
            title: book.title->Some_0,
            author: book.author->Some_0,
        }),
{
    match (&book.title, &book.author) {
        (Some(title), Some(author)) => Some(ReviewKey { title: title.clone(), author: author.clone() }),
        _ => None,
    }
}

/// A stored score entry.
pub struct ScoreEntry {
    pub reference: Option<Seq<char>>,
    pub rating: Option<i32>,
}

/// What a stored review record holds; absent scores read as none.
pub struct ReviewRecord {
    pub title: Option<Seq<char>>,
    pub author: Option<Seq<char>>,
    pub year: Option<i32>,
    pub scores: Seq<ScoreEntry>,
    pub last_modified: Option<i64>,
}

impl View for Score {
    type V = ScoreEntry;

    open spec fn view(&self) -> ScoreEntry {
        ScoreEntry { reference: opt_text(self.reference), rating: self.rating }
    }
}

impl View for Book {
    type V = ReviewRecord;

    open spec fn view(&self) -> ReviewRecord {
        ReviewRecord {
            title: opt_text(self.title),
            author: opt_text(self.author),
            year: self.year,
            scores: match self.scores {
                Some(v) => v@.map_values(|s: Score| s@),
                None => Seq::empty(),
            },
            last_modified: match self.last_modified {
                Some(t) => Some(t.millis),
                None => None,
            },
        }
    }
}

/// An update that appends one score to the record with this title and
/// author, and stamps it as modified at `modified`.
#[derive(Debug, Clone)]
pub struct ScorePush {
    pub title: String,
    pub author: String,
    pub reference: String,
    pub rating: i32,
    pub modified: Timestamp,
}

/// An update that removes every score of this rater from the record with
/// this title and author, and stamps it as modified at `modified`.
#[derive(Debug, Clone)]
pub struct ScorePull {
    pub title: String,
    pub author: String,
    pub reference: String,
    pub modified: Timestamp,
}

pub open spec fn has_key(rec: ReviewRecord, title: Seq<char>, author: Seq<char>) -> bool {
    rec.title == Some(title) && rec.author == Some(author)
}

/// The entries that are not of this rater, in order.
pub open spec fn without_reference(s: Seq<ScoreEntry>, reference: Seq<char>) -> Seq<ScoreEntry>
    decreases s.len(),
{
    if s.len() == 0 {
        s
    } else if s.last().reference == Some(reference) {
        without_reference(s.drop_last(), reference)
    } else {
        without_reference(s.drop_last(), reference).push(s.last())
    }
}

impl ScorePush {
    pub open spec fn apply(self, rec: ReviewRecord) -> ReviewRecord {
        if has_key(rec, self.title@, self.author@) {
            ReviewRecord {
                scores: rec.scores.push(
                    ScoreEntry { reference: Some(self.reference@), rating: Some(self.rating) },
                ),
                last_modified: Some(self.modified.millis),
                ..rec
            }
        } else {
            rec
        }
    }
}

impl ScorePull {
    pub open spec fn apply(self, rec: ReviewRecord) -> ReviewRecord {
        if has_key(rec, self.title@, self.author@) {
            ReviewRecord {
                scores: without_reference(rec.scores, self.reference@),
                last_modified: Some(self.modified.millis),
                ..rec
            }
        } else {
            rec
        }
    }
}

/// The score that a write request carries: the first of its list.
pub open spec fn first_score(b: Book) -> Score {
    b.scores->Some_0@[0]
}

/// A write request holds a score at all.
pub open spec fn has_score(b: Book) -> bool {
    b.title is Some && b.author is Some && b.scores is Some && b.scores->Some_0@.len() > 0
}

/// A write request holds a complete score.
pub open spec fn can_push(b: Book) -> bool {
    has_score(b) && first_score(b).reference is Some && first_score(b).rating is Some
}

/// The first field that adding a score requires and that is absent.
pub open spec fn first_missing_for_push(b: Book) -> Seq<char> {
    if b.title is None {
        "title"@
    } else if b.author is None {
        "author"@
    } else if b.scores is None {
        "scores"@
    } else if b.scores->Some_0@.len() == 0 {
        "scores[0]"@
    } else if first_score(b).reference is None {
        "scores[0].reference"@
    } else {
        "scores[0].rating"@
    }
}

/// The first field that removing a score requires and that is absent.
pub open spec fn first_missing_for_pull(b: Book) -> Seq<char> {
    if b.title is None {
        "title"@
    } else if b.author is None {
        "author"@
    } else if b.scores is None {
        "scores"@
    } else {
        "scores[0]"@
    }
}

pub open spec fn push_of(b: Book, at: Timestamp) -> ScorePush {
    ScorePush {
        title: b.title->Some_0,
        author: b.author->Some_0,
        reference: first_score(b).reference->Some_0,
        rating: first_score(b).rating->Some_0,
        modified: at,
    }
}

/// The removal that a request asks for: none where its score names no
/// rater.
pub open spec fn pull_of(b: Book, at: Timestamp) -> Option<ScorePull> {
    match first_score(b).reference {
        Some(reference) => Some(
            ScorePull { title: b.title->Some_0, author: b.author->Some_0, reference, modified: at },
        ),
        None => None,
    }
}

/// Builds the update that adds the request's score, at `at`.
pub fn push_score_at(book: &Book, at: Timestamp) -> (r: Result<ScorePush, MissingField>)
    ensures
        r is Ok <==> can_push(*book),
        r is Ok ==> r->Ok_0 == push_of(*book, at),
        r is Err ==> r->Err_0.field@ == first_missing_for_push(*book),
{
    let title = get_or_err(book.title.as_ref(), "title")?;
    let author = get_or_err(book.author.as_ref(), "author")?;
    let scores = get_or_err(book.scores.as_ref(), "scores")?;
    let score = get_or_err(scores.first(), "scores[0]")?;
    let reference = get_or_err(score.reference.as_ref(), "scores[0].reference")?;
    let rating = get_or_err(score.rating.as_ref(), "scores[0].rating")?;
    Ok(
        ScorePush {
            title: title.clone(),
            author: author.clone(),
            reference: reference.clone(),
            rating: *rating,
            modified: at,
        },
    )
}

/// Builds the update that adds the request's score, at the instant the
/// system clock gives.
pub fn push_score(book: &Book) -> (r: Result<ScorePush, MissingField>)
    ensures
        r is Ok <==> can_push(*book),
        r is Ok ==> r->Ok_0 == push_of(*book, r->Ok_0.modified),
        r is Err ==> r->Err_0.field@ == first_missing_for_push(*book),
{
    let at = now();
    push_score_at(book, at)
}

/// Builds the update that removes the request's rater's scores, at `at`;
/// none where the request names no rater.
pub fn pull_score_at(book: &Book, at: Timestamp) -> (r: Result<Option<ScorePull>, MissingField>)
    ensures
        r is Ok <==> has_score(*book),
        r is Ok ==> r->Ok_0 == pull_of(*book, at),
        r is Err ==> r->Err_0.field@ == first_missing_for_pull(*book),
{
    let title = get_or_err(book.title.as_ref(), "title")?;
    let author = get_or_err(book.author.as_ref(), "author")?;
    let scores = get_or_err(book.scores.as_ref(), "scores")?;
    let score = get_or_err(scores.first(), "scores[0]")?;
    match &score.reference {
        Some(reference) => Ok(
            Some(
                ScorePull {
                    title: title.clone(),
                    author: author.clone(),
                    reference: reference.clone(),
                    modified: at,
                },
            ),
        ),
        None => Ok(None),
    }
}

/// Builds the removal as `pull_score_at` does, at the instant the system
/// clock gives.
pub fn pull_score(book: &Book) -> (r: Result<Option<ScorePull>, MissingField>)
    ensures
        r is Ok <==> has_score(*book),
        r is Ok ==> exists|at: Timestamp| r->Ok_0 == pull_of(*book, at),
        r is Err ==> r->Err_0.field@ == first_missing_for_pull(*book),
{
    let at = now();
    pull_score_at(book, at)
}

proof fn lemma_without_reference_excludes(s: Seq<ScoreEntry>, reference: Seq<char>)
    ensures
        forall|i: int|
            0 <= i < without_reference(s, reference).len() ==> (#[trigger] without_reference(
                s,
                reference,
            )[i]).reference != Some(reference),
    decreases s.len(),
{
    if s.len() > 0 {
        lemma_without_reference_excludes(s.drop_last(), reference);
    }
}

proof fn lemma_without_absent_reference(s: Seq<ScoreEntry>, reference: Seq<char>)
    requires
        forall|i: int| 0 <= i < s.len() ==> (#[trigger] s[i]).reference != Some(reference),
    ensures
        without_reference(s, reference) == s,
    decreases s.len(),
{
    if s.len() > 0 {
        lemma_without_absent_reference(s.drop_last(), reference);
        assert(s.drop_last().push(s.last()) =~= s);
    }
}

/// An update of a rater's score removes the rater's scores and then adds
/// the new one: afterwards the record holds exactly one score of that
/// rater, with the new rating, whatever it held before.
pub proof fn lemma_update_leaves_one_score(stored: Book, book: Book, pulled: Timestamp, pushed: Timestamp)
    requires
        can_push(book),
        stored.title == book.title,
        stored.author == book.author,
    ensures
        ({
            let reference = first_score(book).reference->Some_0@;
            let after = push_of(book, pushed).apply(pull_of(book, pulled)->Some_0.apply(stored@));
            &&& after.scores.len() > 0
            &&& after.scores.last() == (ScoreEntry {
                reference: Some(reference),
                rating: first_score(book).rating,
            })
            &&& forall|i: int|
                0 <= i < after.scores.len() - 1 ==> (#[trigger] after.scores[i]).reference != Some(
                    reference,
                )
        }),
{
    let reference = first_score(book).reference->Some_0@;
    lemma_without_reference_excludes(stored@.scores, reference);
    let after = push_of(book, pushed).apply(pull_of(book, pulled)->Some_0.apply(stored@));
    assert forall|i: int| 0 <= i < after.scores.len() - 1 implies (#[trigger] after.scores[i]).reference
        != Some(reference) by {
        assert(after.scores[i] == without_reference(stored@.scores, reference)[i]);
    }
}

/// Removing the score of a rater who has none keeps the record's scores
/// and fields as they were; only its modification time moves.
pub proof fn lemma_pull_absent_reference(stored: Book, pull: ScorePull)
    requires
        forall|i: int|
            0 <= i < stored@.scores.len() ==> (#[trigger] stored@.scores[i]).reference != Some(
                pull.reference@,
            ),
    ensures
        pull.apply(stored@).scores == stored@.scores,
        pull.apply(stored@).title == stored@.title,
        pull.apply(stored@).author == stored@.author,
        pull.apply(stored@).year == stored@.year,
{
    lemma_without_absent_reference(stored@.scores, pull.reference@);
}

} // verus!
