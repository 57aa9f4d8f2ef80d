use codex_mylib::codex::{ellipsis, empty_author, empty_book, format_date_row, parse_date, Date};
use codex_mylib::model::Isbn;
use codex_mylib::text::{i32_to_string, parse_u16, parse_u64, u64_to_string};

#[test]
fn decimal_rendering() {
    assert_eq!(u64_to_string(0), "0".to_string());
    assert_eq!(u64_to_string(9782266211963), "9782266211963".to_string());
    assert_eq!(i32_to_string(-1648148861), "-1648148861".to_string());
    assert_eq!(i32_to_string(i32::MIN), "-2147483648".to_string());
    assert_eq!(i32_to_string(411), "411".to_string());
}

#[test]
fn unsigned_parsing() {
    assert_eq!(parse_u16("411"), Some(411));
    assert_eq!(parse_u16("+411"), Some(411));
    assert_eq!(parse_u16("abc"), None);
    assert_eq!(parse_u16(""), None);
    assert_eq!(parse_u16("70000"), None);
    assert_eq!(parse_u16("4 11"), None);
    assert_eq!(parse_u64("9782266211963"), Some(9782266211963));
    assert_eq!(parse_u64("not-a-number"), None);
    assert_eq!(parse_u64("18446744073709551615"), Some(u64::MAX));
    assert_eq!(parse_u64("18446744073709551616"), None);
}

#[test]
fn date_parsing_and_rendering() {
    let d = parse_date("2012-07-10").unwrap();
    assert_eq!(
        d,
        Date {
            year: 2012,
            month: 7,
            day: 10,
        }
    );
    assert_eq!(format_date_row(&d), "10/07/2012".to_string());
    assert_eq!(parse_date("2012-7-10"), None);
    assert_eq!(parse_date("2012-13-01"), None);
    assert_eq!(parse_date("2012-02-30"), None);
    assert_eq!(parse_date("2012-02-29").map(|x| x.day), Some(29));
    assert_eq!(parse_date("2013-02-29"), None);
    assert_eq!(parse_date("10/07/2012"), None);
}

#[test]
fn isbn_rendering() {
    assert_eq!(
        Isbn::Isbn10("226621196X".to_string()).to_string(),
        "ISBN10:226621196X".to_string()
    );
    assert_eq!(
        Isbn::Isbn13(9782266211963).to_string(),
        "ISBN13:9782266211963".to_string()
    );
    assert_eq!(
        Isbn::Isbn10("226621196X".to_string()).bare_value(),
        "226621196X".to_string()
    );
    assert_eq!(
        Isbn::Isbn13(9782266211963).bare_value(),
        "9782266211963".to_string()
    );
}

#[test]
fn ellipsis_shortens_by_bytes_and_keeps_characters() {
    assert_eq!(ellipsis(&"abcdef".to_string(), 3), "abc...".to_string());
    assert_eq!(ellipsis(&"abc".to_string(), 3), "abc".to_string());
    // Three two-byte characters: over the byte limit, but fewer characters
    // than the limit, so all of them are kept before the ellipsis.
    assert_eq!(ellipsis(&"ààà".to_string(), 4), "ààà...".to_string());
    assert_eq!(ellipsis(&"".to_string(), 0), "".to_string());
}

#[test]
fn record_display_shortens_long_texts() {
    let mut b = empty_book();
    b.title = "A title that runs longer than thirty bytes".to_string();
    let mut a = empty_author();
    a.first_name = "Terry".to_string();
    a.last_name = "Pratchett".to_string();
    a.name = "Terry Pratchett".to_string();
    b.authors = vec![a];
    b.pubdate = Some(Date {
        year: 2012,
        month: 7,
        day: 10,
    });
    b.publisher = "Pocket".to_string();
    b.pages = 411;
    b.isbn = vec![Isbn::Isbn13(9782266211963)];
    b.cover = "http://example.test/c".to_string();
    assert_eq!(
        b.to_string(),
        "Book[ #title[A title that runs longer than ...], \
         #authors[Author[ Terry, Pratchett, Terry Pratchett, ]], #kind[], \
         2012-07-10, Pocket, 411, ISBN13:9782266211963, #summary[], \
         #cover[http://example.test/c] ]"
    );
}

#[test]
fn empty_record_defaults() {
    let b = empty_book();
    assert_eq!(b.title, "".to_string());
    assert!(b.authors.is_empty());
    assert!(b.kind.is_empty());
    assert_eq!(b.pubdate, None);
    assert_eq!(b.pages, 0);
    assert!(b.isbn.is_empty());
    let a = empty_author();
    assert_eq!(a.first_name, "".to_string());
    assert_eq!(a.last_name, "".to_string());
    assert_eq!(a.name, "".to_string());
}
