use book_records::clock::Timestamp;
use book_records::fields::{err_if_none, get_or_err, MissingField};
use book_records::inventory::{
    book_payload_to_book, books_to_books_payload, delete_key, increment_at, search_filter,
    stamp_new_book, stamp_new_book_at, Book, BookPayload,
};
use book_records::query::{build_filter, BookFilter};

fn text(s: &str) -> Option<String> {
    Some(s.to_string())
}

fn dune() -> BookPayload {
    BookPayload {
        title: text("Dune"),
        author: text("Herbert"),
        year: Some(1965),
        quantity: Some(3),
        explicit: None,
    }
}

#[test]
fn missing_field_message_names_field() {
    let e = MissingField::new("year");
    assert_eq!(e.message(), "Field `year` is empty, but is required");
}

#[test]
fn get_or_err_hands_back_value_or_names_field() {
    let v: i32 = 7;
    assert_eq!(*get_or_err(Some(&v), "year").unwrap(), 7);
    let none: Option<&i32> = None;
    assert_eq!(get_or_err(none, "year").unwrap_err().field, "year");
    assert!(err_if_none(&Some(1), "quantity").is_ok());
    let absent: Option<i32> = None;
    assert_eq!(err_if_none(&absent, "quantity").unwrap_err().field, "quantity");
}

#[test]
fn filter_tiers() {
    match build_filter(&text("Dune"), &text("Herbert")) {
        BookFilter::TitleAndAuthor { title, author } => {
            assert_eq!(title, "Dune");
            assert_eq!(author, "Herbert");
        }
        other => panic!("unexpected filter {:?}", other),
    }
    match build_filter(&text("Dune"), &None) {
        BookFilter::Title { title } => assert_eq!(title, "Dune"),
        other => panic!("unexpected filter {:?}", other),
    }
    match build_filter(&None, &text("Herbert")) {
        BookFilter::Author { author } => assert_eq!(author, "Herbert"),
        other => panic!("unexpected filter {:?}", other),
    }
    assert!(matches!(build_filter(&None, &None), BookFilter::All));
}

#[test]
fn search_ignores_year_and_quantity() {
    let mut query = book_payload_to_book(&dune());
    query.title = None;
    query.author = None;
    assert!(matches!(search_filter(&query), BookFilter::All));
}

#[test]
fn create_stamps_both_times_alike() {
    let mut book = book_payload_to_book(&dune());
    assert!(book.first_created.is_none() && book.last_modified.is_none());
    stamp_new_book_at(&mut book, Timestamp { millis: 1_700_000_000_000 }).unwrap();
    assert_eq!(book.first_created, Some(Timestamp { millis: 1_700_000_000_000 }));
    assert_eq!(book.last_modified, Some(Timestamp { millis: 1_700_000_000_000 }));
    assert_eq!(book.quantity, Some(3));

    let mut clocked = book_payload_to_book(&dune());
    stamp_new_book(&mut clocked).unwrap();
    assert!(clocked.first_created.is_some());
    assert_eq!(clocked.first_created, clocked.last_modified);
}

#[test]
fn create_requires_each_field() {
    let cases: Vec<(&str, fn(&mut BookPayload))> = vec![
        ("title", |p| p.title = None),
        ("author", |p| p.author = None),
        ("year", |p| p.year = None),
        ("quantity", |p| p.quantity = None),
    ];
    for (field, drop) in cases {
        let mut payload = dune();
        drop(&mut payload);
        let mut book = book_payload_to_book(&payload);
        let err = stamp_new_book_at(&mut book, Timestamp { millis: 5 }).unwrap_err();
        assert_eq!(err.field, field);
        assert!(book.first_created.is_none() && book.last_modified.is_none());
    }
}

#[test]
fn update_is_an_increment_of_the_delta() {
    let book = book_payload_to_book(&BookPayload {
        title: text("Dune"),
        author: text("Herbert"),
        year: None,
        quantity: Some(5),
        explicit: None,
    });
    let inc = increment_at(&book, Timestamp { millis: 9 }).unwrap();
    assert_eq!(inc.title, "Dune");
    assert_eq!(inc.author, "Herbert");
    assert_eq!(inc.delta, 5);
    assert_eq!(inc.modified, Timestamp { millis: 9 });

    let mut no_quantity = book.clone();
    no_quantity.quantity = None;
    assert_eq!(increment_at(&no_quantity, Timestamp { millis: 9 }).unwrap_err().field, "quantity");
    let mut no_author = book.clone();
    no_author.author = None;
    assert_eq!(increment_at(&no_author, Timestamp { millis: 9 }).unwrap_err().field, "author");
}

#[test]
fn delete_needs_title_and_author() {
    let book = book_payload_to_book(&dune());
    let key = delete_key(&book).unwrap();
    assert_eq!(key.title, "Dune");
    assert_eq!(key.author, "Herbert");
    let mut no_title = book.clone();
    no_title.title = None;
    assert_eq!(delete_key(&no_title).unwrap_err().field, "title");
}

#[test]
fn created_book_reads_back_as_posted() {
    let posted = dune();
    let mut stored = book_payload_to_book(&posted);
    stamp_new_book_at(&mut stored, Timestamp { millis: 42 }).unwrap();

    let query = book_payload_to_book(&BookPayload {
        title: text("Dune"),
        author: text("Herbert"),
        year: None,
        quantity: None,
        explicit: None,
    });
    match search_filter(&query) {
        BookFilter::TitleAndAuthor { title, author } => {
            assert_eq!(Some(title), stored.title);
            assert_eq!(Some(author), stored.author);
        }
        other => panic!("unexpected filter {:?}", other),
    }
    let shown = books_to_books_payload(&[stored]);
    assert_eq!(shown.len(), 1);
    assert_eq!(shown[0].title.as_deref(), Some("Dune"));
    assert_eq!(shown[0].author.as_deref(), Some("Herbert"));
    assert_eq!(shown[0].year, Some(1965));
    assert_eq!(shown[0].quantity, Some(3));
    assert_eq!(shown[0].explicit, None);
}

#[test]
fn records_show_without_timestamps_in_order() {
    let mut a = book_payload_to_book(&dune());
    a.first_created = Some(Timestamp { millis: 1 });
    let b = Book {
        title: text("Emma"),
        author: text("Austen"),
        year: Some(1815),
        quantity: Some(1),
        explicit: Some(false),
        first_created: None,
        last_modified: None,
    };
    let shown = books_to_books_payload(&[b, a]);
    assert_eq!(shown.len(), 2);
    assert_eq!(shown[0].title.as_deref(), Some("Emma"));
    assert_eq!(shown[0].explicit, Some(false));
    assert_eq!(shown[1].title.as_deref(), Some("Dune"));
    assert!(books_to_books_payload(&[]).is_empty());
}
