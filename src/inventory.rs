//! The inventory service: book records with a stock quantity.
use vstd::prelude::*;

use crate::clock::{now, Timestamp};
use crate::fields::{err_if_none, get_or_err, MissingField};
use crate::query::{build_filter, copy_text, filter_of, opt_text, BookFilter};

verus! {

/// An inventory record as the service reads and writes it.
#[derive(Debug, Clone)]
pub struct Book {
    pub title: Option<String>,
    pub author: Option<String>,
    pub year: Option<i32>,
    pub quantity: Option<i32>,
    pub explicit: Option<bool>,
    pub first_created: Option<Timestamp>,
    pub last_modified: Option<Timestamp>,
}

/// The fields of an inventory record that a client sends and receives.
#[derive(Debug, Clone)]
pub struct BookPayload {
    pub title: Option<String>,
    pub author: Option<String>,
    pub year: Option<i32>,
    pub quantity: Option<i32>,
    pub explicit: Option<bool>,
}

/// What a stored inventory record holds.
pub struct BookRecord {
    pub title: Option<Seq<char>>,
    pub author: Option<Seq<char>>,
    pub year: Option<int>,
    pub quantity: Option<int>,
    pub explicit: Option<bool>,
    pub first_created: Option<i64>,
    pub last_modified: Option<i64>,
}

pub open spec fn opt_int(o: Option<i32>) -> Option<int> {
    match o {
        Some(v) => Some(v as int),
        None => None,
    }
}

pub open spec fn opt_millis(o: Option<Timestamp>) -> Option<i64> {
    match o {
        Some(t) => Some(t.millis),
        None => None,
    }
}

impl View for Book {
    type V = BookRecord;

    open spec fn view(&self) -> BookRecord {
        BookRecord {
            title: opt_text(self.title),
            author: opt_text(self.author),
            year: opt_int(self.year),
            quantity: opt_int(self.quantity),
            explicit: self.explicit,
            first_created: opt_millis(self.first_created),
            last_modified: opt_millis(self.last_modified),
        }
    }
}

/// The record that a payload describes, not yet written.
pub open spec fn book_of(p: BookPayload) -> Book {
    Book {
        title: p.title,
        author: p.author,
        year: p.year,
        quantity: p.quantity,
        explicit: p.explicit,
        first_created: None,
        last_modified: None,
    }
}

/// The payload that shows a record: its fields without the timestamps.
pub open spec fn payload_of(b: Book) -> BookPayload {
    BookPayload {
        title: b.title,
        author: b.author,
        year: b.year,
        quantity: b.quantity,
        explicit: b.explicit,
    }
}

/// A record as it is first written: created and modified at the same instant.
pub open spec fn stamped(b: Book, at: Timestamp) -> Book {
    Book { first_created: Some(at), last_modified: Some(at), ..b }
}

/// The first field that creating a record requires and that is absent.
pub open spec fn first_missing_for_insert(b: Book) -> Seq<char> {
    if b.title is None {
        "title"@
    } else if b.author is None {
        "author"@
    } else if b.year is None {
        "year"@
    } else {
        "quantity"@
    }
}

/// The first field that an increment requires and that is absent.
pub open spec fn first_missing_for_update(b: Book) -> Seq<char> {
    if b.title is None {
        "title"@
    } else if b.author is None {
        "author"@
    } else {
        "quantity"@
    }
}

/// The first field of the key that is absent.
pub open spec fn first_missing_for_key(b: Book) -> Seq<char> {
    if b.title is None {
        "title"@
    } else {
        "author"@
    }
}

pub fn book_payload_to_book(book_payload: &BookPayload) -> (r: Book)
    ensures
        r == book_of(*book_payload),
{
    Book {
        title: copy_text(&book_payload.title),
        author: copy_text(&book_payload.author),
        year: book_payload.year,
        quantity: book_payload.quantity,
        explicit: book_payload.explicit,
        first_created: None,
        last_modified: None,
    }
}

pub fn books_to_books_payload(books: &[Book]) -> (r: Vec<BookPayload>)
    ensures
        r@.len() == books@.len(),
        forall|i: int| 0 <= i < books@.len() ==> r@[i] == payload_of(#[trigger] books@[i]),
{
    let mut books_payload: Vec<BookPayload> = Vec::new();
    let mut i: usize = 0;
    while i < books.len()
        invariant
            i <= books@.len(),
            books_payload@.len() == i,
            forall|j: int| 0 <= j < i ==> books_payload@[j] == payload_of(#[trigger] books@[j]),
        decreases books@.len() - i,
    {
        let book = &books[i];
        books_payload.push(
            BookPayload {
                title: copy_text(&book.title),
                author: copy_text(&book.author),
                year: book.year,
                quantity: book.quantity,
                explicit: book.explicit,
            },
        );
        i = i + 1;
    }
    books_payload
}

/// The filter of a search for inventory records.
pub fn search_filter(book: &Book) -> (r: BookFilter)
    ensures
        r == filter_of(book.title, book.author),
{
    build_filter(&book.title, &book.author)
}

/// Checks that a new record has a title, an author, a year and a quantity,
/// and stamps it as created and modified at `at`. A record that lacks one is
/// left as it is.
pub fn stamp_new_book_at(book: &mut Book, at: Timestamp) -> (r: Result<(), MissingField>)
    ensures
        r is Ok <==> (old(book).title is Some && old(book).author is Some && old(book).year is Some
            && old(book).quantity is Some),
        r is Ok ==> *final(book) == stamped(*old(book), at),
        r is Err ==> *final(book) == *old(book) && r->Err_0.field@ == first_missing_for_insert(
            *old(book),
        ),
{
    err_if_none(&book.title, "title")?;
    err_if_none(&book.author, "author")?;
    err_if_none(&book.year, "year")?;
    err_if_none(&book.quantity, "quantity")?;
    book.first_created = Some(at);
    book.last_modified = Some(at);
    Ok(())
}

/// Checks and stamps a new record as `stamp_new_book_at` does, at the
/// instant the system clock gives.
pub fn stamp_new_book(book: &mut Book) -> (r: Result<(), MissingField>)
    ensures
        r is Ok <==> (old(book).title is Some && old(book).author is Some && old(book).year is Some
            && old(book).quantity is Some),
        r is Ok ==> exists|at: Timestamp| *final(book) == stamped(*old(book), at),
        r is Err ==> *final(book) == *old(book) && r->Err_0.field@ == first_missing_for_insert(
            *old(book),
        ),
{
    let at = now();
    stamp_new_book_at(book, at)
}

/// An update that adds `delta` to the quantity of the record with this title
/// and author, and stamps it as modified at `modified`.
#[derive(Debug, Clone)]
pub struct QuantityIncrement {
    pub title: String,
    pub author: String,
    pub delta: i32,
    pub modified: Timestamp,
}

/// The title and author that identify the record to remove.
#[derive(Debug, Clone)]
pub struct BookKey {
    pub title: String,
    pub author: String,
}

/// Builds the increment that an update request asks for, at `at`.
pub fn increment_at(book: &Book, at: Timestamp) -> (r: Result<QuantityIncrement, MissingField>)
    ensures
        r is Ok <==> (book.title is Some && book.author is Some && book.quantity is Some),
        r is Ok ==> r->Ok_0 == (QuantityIncrement {
            title: book.title->Some_0,
            author: book.author->Some_0,
            delta: book.quantity->Some_0,
            modified: at,
        }),
        r is Err ==> r->Err_0.field@ == first_missing_for_update(*book),
{
    let title = get_or_err(book.title.as_ref(), "title")?;
    let author = get_or_err(book.author.as_ref(), "author")?;
    let quantity = get_or_err(book.quantity.as_ref(), "quantity")?;
    Ok(QuantityIncrement { title: title.clone(), author: author.clone(), delta: *quantity, modified: at })
}

/// Builds the increment that an update request asks for, at the instant the
/// system clock gives.
pub fn increment(book: &Book) -> (r: Result<QuantityIncrement, MissingField>)
    ensures
        r is Ok <==> (book.title is Some && book.author is Some && book.quantity is Some),
        r is Ok ==> r->Ok_0.title == book.title->Some_0 && r->Ok_0.author == book.author->Some_0
            && r->Ok_0.delta == book.quantity->Some_0,
        r is Err ==> r->Err_0.field@ == first_missing_for_update(*book),
{
    let at = now();
    increment_at(book, at)
}

/// The key of the record that a delete request names.
pub fn delete_key(book: &Book) -> (r: Result<BookKey, MissingField>)
    ensures
        r is Ok <==> (book.title is Some && book.author is Some),
        r is Ok ==> r->Ok_0 == (BookKey { title: book.title->Some_0, author: book.author->Some_0 }),
        r is Err ==> r->Err_0.field@ == first_missing_for_key(*book),
{
    let title = get_or_err(book.title.as_ref(), "title")?;
    let author = get_or_err(book.author.as_ref(), "author")?;
    Ok(BookKey { title: title.clone(), author: author.clone() })
}

pub open spec fn has_key(rec: BookRecord, title: Seq<char>, author: Seq<char>) -> bool {
    rec.title == Some(title) && rec.author == Some(author)
}

/// Record `i` is the first of the collection with this title and author: the
/// one that a single-record update or delete reaches.
pub open spec fn is_first_match(coll: Seq<BookRecord>, i: int, title: Seq<char>, author: Seq<char>) -> bool {
    &&& 0 <= i < coll.len()
    &&& has_key(coll[i], title, author)
    &&& forall|j: int| 0 <= j < i ==> !has_key(#[trigger] coll[j], title, author)
}

/// A record after its quantity grew by `delta` (an absent quantity counts as
/// zero) at instant `at`.
pub open spec fn bumped(rec: BookRecord, delta: int, at: i64) -> BookRecord {
    BookRecord {
        quantity: Some(
            match rec.quantity {
                Some(q) => q + delta,
                None => delta,
            },
        ),
        last_modified: Some(at),
        ..rec
    }
}

impl QuantityIncrement {
    /// The collection after this update: the first record with the key is
    /// bumped; without one, nothing changes.
    pub open spec fn apply(self, coll: Seq<BookRecord>) -> Seq<BookRecord> {
        if exists|i: int| is_first_match(coll, i, self.title@, self.author@) {
            let i = choose|i: int| is_first_match(coll, i, self.title@, self.author@);
            coll.update(i, bumped(coll[i], self.delta as int, self.modified.millis))
        } else {
            coll
        }
    }
}

impl BookKey {
    /// The collection after this delete: the first record with the key is
    /// removed; without one, nothing changes.
    pub open spec fn apply(self, coll: Seq<BookRecord>) -> Seq<BookRecord> {
        if exists|i: int| is_first_match(coll, i, self.title@, self.author@) {
            let i = choose|i: int| is_first_match(coll, i, self.title@, self.author@);
            coll.remove(i)
        } else {
            coll
        }
    }
}

proof fn lemma_first_match_unique(coll: Seq<BookRecord>, i: int, j: int, title: Seq<char>, author: Seq<char>)
    requires
        is_first_match(coll, i, title, author),
        is_first_match(coll, j, title, author),
    ensures
        i == j,
{
    if i < j {
        assert(!has_key(coll[i], title, author));
    } else if j < i {
        assert(!has_key(coll[j], title, author));
    }
}

/// An increment reaches the first record with its key and no other.
proof fn lemma_increment_at(coll: Seq<BookRecord>, inc: QuantityIncrement, i: int)
    requires
        is_first_match(coll, i, inc.title@, inc.author@),
    ensures
        inc.apply(coll) == coll.update(i, bumped(coll[i], inc.delta as int, inc.modified.millis)),
        is_first_match(inc.apply(coll), i, inc.title@, inc.author@),
{
    let k = choose|k: int| is_first_match(coll, k, inc.title@, inc.author@);
    lemma_first_match_unique(coll, i, k, inc.title@, inc.author@);
    let after = inc.apply(coll);
    assert forall|j: int| 0 <= j < i implies !has_key(#[trigger] after[j], inc.title@, inc.author@) by {
        assert(after[j] == coll[j]);
    }
}

/// Updating the quantity twice with the same delta adds twice the delta: the
/// update is no overwrite. Every other record stays as it was.
pub proof fn lemma_increment_accumulates(
    coll: Seq<BookRecord>,
    first: QuantityIncrement,
    second: QuantityIncrement,
    i: int,
    q: int,
)
    requires
        is_first_match(coll, i, first.title@, first.author@),
        second.title@ == first.title@,
        second.author@ == first.author@,
        second.delta == first.delta,
        coll[i].quantity == Some(q),
    ensures
        second.apply(first.apply(coll)).len() == coll.len(),
        second.apply(first.apply(coll))[i].quantity == Some(q + 2 * first.delta),
        forall|j: int|
            0 <= j < coll.len() && j != i ==> #[trigger] second.apply(first.apply(coll))[j]
                == coll[j],
{
    lemma_increment_at(coll, first, i);
    lemma_increment_at(first.apply(coll), second, i);
}

/// A record written by a create carries one instant as both its creation and
/// its modification time; a later update of it changes the modification time
/// and keeps the creation time.
pub proof fn lemma_update_keeps_first_created(
    coll: Seq<BookRecord>,
    book: Book,
    created: Timestamp,
    inc: QuantityIncrement,
)
    requires
        book.title == Some(inc.title),
        book.author == Some(inc.author),
        forall|j: int| 0 <= j < coll.len() ==> !has_key(#[trigger] coll[j], inc.title@, inc.author@),
    ensures
        stamped(book, created)@.first_created == Some(created.millis),
        stamped(book, created)@.last_modified == Some(created.millis),
        inc.apply(coll.push(stamped(book, created)@)).last().first_created == Some(created.millis),
        inc.apply(coll.push(stamped(book, created)@)).last().last_modified == Some(
            inc.modified.millis,
        ),
{
    let stored = coll.push(stamped(book, created)@);
    assert(is_first_match(stored, coll.len() as int, inc.title@, inc.author@)) by {
        assert forall|j: int| 0 <= j < coll.len() implies !has_key(#[trigger] stored[j], inc.title@, inc.author@) by {
            assert(stored[j] == coll[j]);
        }
    }
    lemma_increment_at(stored, inc, coll.len() as int);
}

/// Deleting by title and author removes the one record with that key and
/// keeps every other record, in order.
pub proof fn lemma_delete_removes_only_match(coll: Seq<BookRecord>, key: BookKey, i: int)
    requires
        is_first_match(coll, i, key.title@, key.author@),
        forall|j: int|
            0 <= j < coll.len() && j != i ==> !has_key(#[trigger] coll[j], key.title@, key.author@),
    ensures
        key.apply(coll) == coll.remove(i),
        forall|j: int|
            0 <= j < key.apply(coll).len() ==> !has_key(
                #[trigger] key.apply(coll)[j],
                key.title@,
                key.author@,
            ),
{
    let k = choose|k: int| is_first_match(coll, k, key.title@, key.author@);
    lemma_first_match_unique(coll, i, k, key.title@, key.author@);
    let after = key.apply(coll);
    assert forall|j: int| 0 <= j < after.len() implies !has_key(#[trigger] after[j], key.title@, key.author@) by {
        if j < i {
            assert(after[j] == coll[j]);
        } else {
            assert(after[j] == coll[j + 1]);
        }
    }
}

/// A record created from a payload is found again by a search for its title
/// and author, and shows as the payload that created it.
pub proof fn lemma_created_book_found(p: BookPayload, at: Timestamp)
    requires
        p.title is Some,
        p.author is Some,
    ensures
        ({
            let rec = stamped(book_of(p), at);
            &&& filter_of(p.title, p.author).selects(rec@.title, rec@.author)
            &&& payload_of(rec) == p
        }),
{
}

} // verus!
