use codex_mylib::codex::util::{parse, Event, Extractor};
use codex_mylib::codex::{Author, Book, Date};
use codex_mylib::model::Isbn;

#[test]
fn test_parse() {
    let input = "<?xml version='1.0' encoding='UTF-8' standalone='yes' ?><books version=\"2\" itemsCount=\"1\">
  <book>
    <title>Accros du roc</title>
    <authors>
      <author>
        <firstName>Terry</firstName>
        <lastName>Pratchett</lastName>
        <name>Terry Pratchett</name>
      </author>
    </authors>
    <publisher>
      <name>Pocket</name>
    </publisher>
    <identifiers>
      <identifier>
        <type>ISBN_13</type>
        <value>9782266211963</value>
      </identifier>
      <identifier>
        <type>ISBN_10</type>
        <value>226621196X</value>
      </identifier>
      <identifier>
        <type>GOOGLE_ID</type>
        <value>4iuTtwAACAAJ</value>
      </identifier>
    </identifiers>
    <publishDate>2012-07-10</publishDate>
    <description>Suzanne est une jeune étudiante discrète ...</description>
    <language>français</language>
    <pageCount>411</pageCount>
    <coverUrl>http://bks0.books.google.fr/books?id=fwIHPwAACAAJ&amp;printsec=frontcover&amp;img=1&amp;zoom=1&amp;imgtk=AFLRE711A4q0LqeTgMfMz76VFvw0yiHbNPQOTK-8nFhitUSbS8At14EQS6gzXwN1w2phGjskOqburPHmt_5LiFZQHufvU2KZ9GCB_JyQ6LeZdKysJY6gPuQ&amp;source=gbs_api</coverUrl>
    <categories>
      <category>
        <name>General</name>
      </category>
      <category>
        <name>Science Fiction</name>
      </category>
      <category>
        <name>Fiction</name>
      </category>
    </categories>
  </book>
</books>";

    let books = parse(input.as_bytes());
    assert_eq!(books.len(), 1);
    assert_eq!(
        books[0],
        Book {
            title: "Accros du roc".to_string(),
            authors: vec![Author {
                first_name: "Terry".to_string(),
                last_name: "Pratchett".to_string(),
                name: "Terry Pratchett".to_string(),
            }],
            kind: vec![
                "General".to_string(),
                "Science Fiction".to_string(),
                "Fiction".to_string(),
            ],
            pubdate: Some(Date {
                year: 2012,
                month: 7,
                day: 10,
            }),
            publisher: "Pocket".to_string(),
            pages: 411,
            isbn: vec![
                Isbn::Isbn13(9782266211963),
                Isbn::Isbn10("226621196X".to_string()),
            ],
            summary: "Suzanne est une jeune étudiante discrète ...".to_string(),
            cover: "http://bks0.books.google.fr/books?id=fwIHPwAACAAJ&printsec=frontcover&img=1&zoom=1&imgtk=AFLRE711A4q0LqeTgMfMz76VFvw0yiHbNPQOTK-8nFhitUSbS8At14EQS6gzXwN1w2phGjskOqburPHmt_5LiFZQHufvU2KZ9GCB_JyQ6LeZdKysJY6gPuQ&source=gbs_api".to_string(),
        }
    );
}

#[test]
fn unparseable_page_count_keeps_default() {
    let input = "<books><book><title>T</title><pageCount>abc</pageCount></book></books>";
    let books = parse(input.as_bytes());
    assert_eq!(books.len(), 1);
    assert_eq!(books[0].pages, 0);
    assert_eq!(books[0].title, "T".to_string());
}

#[test]
fn unparseable_isbn13_is_dropped() {
    let input = "<books><book><identifiers><identifier><type>ISBN_13</type>\
                 <value>not-a-number</value></identifier><identifier><type>ISBN_10</type>\
                 <value>226621196X</value></identifier></identifiers></book></books>";
    let books = parse(input.as_bytes());
    assert_eq!(books.len(), 1);
    assert_eq!(books[0].isbn, vec![Isbn::Isbn10("226621196X".to_string())]);
}

#[test]
fn unknown_identifier_type_is_ignored() {
    let input = "<books><book><identifiers><identifier><type>WEIRD</type>\
                 <value>123</value></identifier></identifiers></book></books>";
    let books = parse(input.as_bytes());
    assert_eq!(books.len(), 1);
    assert!(books[0].isbn.is_empty());
}

#[test]
fn unparseable_date_stays_unset() {
    let input = "<books><book><publishDate>2012-13-40</publishDate></book></books>";
    let books = parse(input.as_bytes());
    assert_eq!(books.len(), 1);
    assert_eq!(books[0].pubdate, None);
}

#[test]
fn one_record_per_book_and_no_leak_across_records() {
    let input = "<books>\
                 <book><title>First</title><publisher><name>P1</name></publisher>\
                 <pageCount>42</pageCount></book>\
                 <book><title>Second</title></book>\
                 </books>";
    let books = parse(input.as_bytes());
    assert_eq!(books.len(), 2);
    assert_eq!(books[0].title, "First".to_string());
    assert_eq!(books[0].publisher, "P1".to_string());
    assert_eq!(books[0].pages, 42);
    assert_eq!(books[1].title, "Second".to_string());
    assert_eq!(books[1].publisher, "".to_string());
    assert_eq!(books[1].pages, 0);
    assert!(books[1].authors.is_empty());
    assert!(books[1].isbn.is_empty());
}

#[test]
fn authors_block_keeps_only_last_author() {
    // The in-progress author entry is pushed once, when the enclosing
    // authors block closes: with two author elements the later one wins.
    let input = "<books><book><authors>\
                 <author><name>First Author</name></author>\
                 <author><name>Second Author</name></author>\
                 </authors></book></books>";
    let books = parse(input.as_bytes());
    assert_eq!(books.len(), 1);
    assert_eq!(books[0].authors.len(), 1);
    assert_eq!(books[0].authors[0].name, "Second Author".to_string());
}

#[test]
fn malformed_document_keeps_events_before_the_error() {
    let input = "<books><book><title>T</title></book><oops";
    let books = parse(input.as_bytes());
    assert_eq!(books.len(), 1);
    assert_eq!(books[0].title, "T".to_string());
}

#[test]
fn step_transitions_fill_the_accumulator() {
    let mut ex = Extractor::new();
    assert!(ex.step(&Event::Start("book".to_string())).is_none());
    assert!(ex.in_book);
    assert!(ex.step(&Event::Start("title".to_string())).is_none());
    assert!(ex.in_title);
    assert!(ex.step(&Event::Text("X".to_string())).is_none());
    assert_eq!(ex.book.title, "X".to_string());
    assert!(ex.step(&Event::End("title".to_string())).is_none());
    assert!(!ex.in_title);
    let out = ex.step(&Event::End("book".to_string()));
    let emitted = out.expect("a record is emitted on the closing book element");
    assert_eq!(emitted.title, "X".to_string());
    assert_eq!(ex.book.title, "".to_string());
    assert!(!ex.in_book);
}

#[test]
fn identifier_selector_is_consumed_per_identifier() {
    // An identifier whose value arrives while no ISBN label was classified
    // is ignored; a later identifier with a known label is kept.
    let input = "<books><book><identifiers>\
                 <identifier><value>123</value></identifier>\
                 <identifier><type>ISBN_13</type><value>456</value></identifier>\
                 </identifiers></book></books>";
    let books = parse(input.as_bytes());
    assert_eq!(books.len(), 1);
    assert_eq!(books[0].isbn, vec![Isbn::Isbn13(456)]);
}
