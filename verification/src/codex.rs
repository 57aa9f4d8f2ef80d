//! The book record model: the accumulator the extractor fills, its author
//! entries, calendar dates, and the record's display rendering.

use vstd::prelude::*;
use vstd::string::StrSliceExecFns;
use vstd::string::StringExecFns;
use vstd::utf8::encode_utf8;

use crate::model::{Isbn, IsbnV, isbn_display_of};
use crate::text::{dec_of, digit_val, is_dec_digit, join_of, join_with, pad2_of, pad4_of};

pub mod util;

verus! {

/// A calendar date, held as plain year, month and day numbers.
#[derive(Debug, PartialEq, Eq, Structural, Clone, Copy)]
pub struct Date {
    pub year: u16,
    pub month: u8,
    pub day: u8,
}

/// Whether the year is a leap year of the proleptic Gregorian calendar.
pub open spec fn is_leap_year(y: int) -> bool {
    y % 4 == 0 && (y % 100 != 0 || y % 400 == 0)
}

/// The number of days in the month of the given year.
pub open spec fn days_in_month(y: int, m: int) -> int {
    if m == 2 {
        if is_leap_year(y) {
            29
        } else {
            28
        }
    } else if m == 4 || m == 6 || m == 9 || m == 11 {
        30
    } else {
        31
    }
}

/// Whether the fields form a real calendar date.
pub open spec fn date_valid(d: Date) -> bool {
    &&& 1 <= d.month <= 12
    &&& 1 <= d.day <= days_in_month(d.year as int, d.month as int)
}

/// What parsing a publish-date text returns: the date when the text has
/// exactly the ISO order `YYYY-MM-DD` (four-digit year, two-digit month,
/// two-digit day) and names a real calendar date, else nothing.
pub open spec fn date_of(s: Seq<char>) -> Option<Date> {
    if s.len() == 10 && is_dec_digit(s[0]) && is_dec_digit(s[1]) && is_dec_digit(s[2])
        && is_dec_digit(s[3]) && s[4] == '-' && is_dec_digit(s[5]) && is_dec_digit(s[6])
        && s[7] == '-' && is_dec_digit(s[8]) && is_dec_digit(s[9]) {
        let y = ((digit_val(s[0]) * 10 + digit_val(s[1])) * 10 + digit_val(s[2])) * 10
            + digit_val(s[3]);
        let m = digit_val(s[5]) * 10 + digit_val(s[6]);
        let d = digit_val(s[8]) * 10 + digit_val(s[9]);
        let date = Date { year: y as u16, month: m as u8, day: d as u8 };
        if date_valid(date) {
            Some(date)
        } else {
            None
        }
    } else {
        None
    }
}

fn digit_value(c: char) -> (r: u8)
    requires
        is_dec_digit(c),
    ensures
        r == digit_val(c),
{
    ((c as u32) - 48) as u8
}

fn is_digit_char(c: char) -> (r: bool)
    ensures
        r == is_dec_digit(c),
{
    let cv = c as u32;
    48 <= cv && cv <= 57
}

/// Parses a publish-date text against the one exact `YYYY-MM-DD` format.
pub fn parse_date(s: &str) -> (r: Option<Date>)
    ensures
        r == date_of(s@),
{
    if s.unicode_len() != 10 {
        return None;
    }
    let c0 = s.get_char(0);
    let c1 = s.get_char(1);
    let c2 = s.get_char(2);
    let c3 = s.get_char(3);
    let c4 = s.get_char(4);
    let c5 = s.get_char(5);
    let c6 = s.get_char(6);
    let c7 = s.get_char(7);
    let c8 = s.get_char(8);
    let c9 = s.get_char(9);
    if !(is_digit_char(c0) && is_digit_char(c1) && is_digit_char(c2) && is_digit_char(c3)
        && c4 == '-' && is_digit_char(c5) && is_digit_char(c6) && c7 == '-' && is_digit_char(c8)
        && is_digit_char(c9)) {
        return None;
    }
    let y: u16 = ((digit_value(c0) as u16 * 10 + digit_value(c1) as u16) * 10
        + digit_value(c2) as u16) * 10 + digit_value(c3) as u16;
    let m: u8 = digit_value(c5) * 10 + digit_value(c6);
    let d: u8 = digit_value(c8) * 10 + digit_value(c9);
    let date = Date { year: y, month: m, day: d };
    if month_ok(m) && 1 <= d && (d as u16) <= days_in_month_exec(y, m) as u16 {
        Some(date)
    } else {
        None
    }
}

fn month_ok(m: u8) -> (r: bool)
    ensures
        r == (1 <= m <= 12),
{
    1 <= m && m <= 12
}

fn days_in_month_exec(y: u16, m: u8) -> (r: u8)
    ensures
        r == days_in_month(y as int, m as int),
{
    if m == 2 {
        if (y % 4 == 0) && (y % 100 != 0 || y % 400 == 0) {
            29
        } else {
            28
        }
    } else if m == 4 || m == 6 || m == 9 || m == 11 {
        30
    } else {
        31
    }
}

/// The date as the output row carries it: `DD/MM/YYYY`, zero padded.
pub open spec fn date_row_of(d: Date) -> Seq<char> {
    pad2_of(d.day as nat) + seq!['/'] + pad2_of(d.month as nat) + seq!['/'] + pad4_of(
        d.year as nat,
    )
}

/// Renders a date as the output row carries it.
pub fn format_date_row(d: &Date) -> (r: String)
    ensures
        r@ == date_row_of(*d),
{
    let mut s = crate::text::pad2(d.day);
    s.append("/");
    s.append(crate::text::pad2(d.month).as_str());
    s.append("/");
    s.append(crate::text::pad4(d.year).as_str());
    proof {
        reveal_strlit("/");
        assert("/"@ =~= seq!['/']);
    }
    s
}

/// The date in ISO order, `YYYY-MM-DD`, zero padded, as the record display
/// shows it.
pub open spec fn date_iso_of(d: Date) -> Seq<char> {
    pad4_of(d.year as nat) + seq!['-'] + pad2_of(d.month as nat) + seq!['-'] + pad2_of(
        d.day as nat,
    )
}

/// Renders a date in ISO order.
pub fn format_date_iso(d: &Date) -> (r: String)
    ensures
        r@ == date_iso_of(*d),
{
    let mut s = crate::text::pad4(d.year);
    s.append("-");
    s.append(crate::text::pad2(d.month).as_str());
    s.append("-");
    s.append(crate::text::pad2(d.day).as_str());
    proof {
        reveal_strlit("-");
        assert("-"@ =~= seq!['-']);
    }
    s
}

/// One author entry: three independent strings, with no derived relation
/// between them.
#[derive(Debug)]
pub struct Author {
    pub first_name: String,
    pub last_name: String,
    pub name: String,
}

/// The mathematical value of an author entry.
#[verifier::ext_equal]
pub struct AuthorV {
    pub first_name: Seq<char>,
    pub last_name: Seq<char>,
    pub name: Seq<char>,
}

impl View for Author {
    type V = AuthorV;

    open spec fn view(&self) -> AuthorV {
        AuthorV {
            first_name: self.first_name@,
            last_name: self.last_name@,
            name: self.name@,
        }
    }
}

/// The author entry with every field empty.
pub open spec fn empty_author_v() -> AuthorV {
    AuthorV { first_name: Seq::empty(), last_name: Seq::empty(), name: Seq::empty() }
}

/// Makes an author entry with every field empty.
pub fn empty_author() -> (a: Author)
    ensures
        a@ == empty_author_v(),
{
    let a = Author { first_name: String::new(), last_name: String::new(), name: String::new() };
    proof {
        assert(a@ =~= empty_author_v());
    }
    a
}

impl PartialEq for Author {
    fn eq(&self, other: &Self) -> bool {
        self.first_name.eq(&other.first_name) && self.last_name.eq(&other.last_name)
            && self.name.eq(&other.name)
    }
}

impl vstd::std_specs::cmp::PartialEqSpecImpl for Author {
    open spec fn obeys_eq_spec() -> bool {
        true
    }

    open spec fn eq_spec(&self, other: &Author) -> bool {
        self@ == other@
    }
}

/// The author entry rendered for the record display.
pub open spec fn author_display_of(a: AuthorV) -> Seq<char> {
    "Author[ "@ + a.first_name + ", "@ + a.last_name + ", "@ + a.name + ", ]"@
}

impl Author {
    /// Renders the author entry for the record display.
    pub fn to_string(&self) -> (r: String)
        ensures
            r@ == author_display_of(self@),
    {
        let mut s = "Author[ ".to_owned();
        s.append(self.first_name.as_str());
        s.append(", ");
        s.append(self.last_name.as_str());
        s.append(", ");
        s.append(self.name.as_str());
        s.append(", ]");
        s
    }
}

/// One complete book record: the accumulator the extractor fills and the
/// downstream pipeline consumes.
#[derive(Debug)]
pub struct Book {
    pub title: String,
    pub authors: Vec<Author>,
    pub kind: Vec<String>,
    pub pubdate: Option<Date>,
    pub publisher: String,
    pub pages: u16,
    pub isbn: Vec<Isbn>,
    pub summary: String,
    pub cover: String,
}

/// The mathematical value of a book record.
#[verifier::ext_equal]
pub struct BookV {
    pub title: Seq<char>,
    pub authors: Seq<AuthorV>,
    pub kind: Seq<Seq<char>>,
    pub pubdate: Option<Date>,
    pub publisher: Seq<char>,
    pub pages: u16,
    pub isbn: Seq<IsbnV>,
    pub summary: Seq<char>,
    pub cover: Seq<char>,
}

impl View for Book {
    type V = BookV;

    open spec fn view(&self) -> BookV {
        BookV {
            title: self.title@,
            authors: self.authors@.map_values(|a: Author| a@),
            kind: self.kind@.map_values(|k: String| k@),
            pubdate: self.pubdate,
            publisher: self.publisher@,
            pages: self.pages,
            isbn: self.isbn@.map_values(|i: Isbn| i@),
            summary: self.summary@,
            cover: self.cover@,
        }
    }
}

/// The book record with every field at its default.
pub open spec fn empty_book_v() -> BookV {
    BookV {
        title: Seq::empty(),
        authors: Seq::empty(),
        kind: Seq::empty(),
        pubdate: None,
        publisher: Seq::empty(),
        pages: 0,
        isbn: Seq::empty(),
        summary: Seq::empty(),
        cover: Seq::empty(),
    }
}

/// Makes a book record with every field at its default.
pub fn empty_book() -> (b: Book)
    ensures
        b@ == empty_book_v(),
{
    let b = Book {
        title: String::new(),
        authors: Vec::new(),
        kind: Vec::new(),
        pubdate: None,
        publisher: String::new(),
        pages: 0,
        isbn: Vec::new(),
        summary: String::new(),
        cover: String::new(),
    };
    proof {
        assert(b@ =~= empty_book_v());
    }
    b
}

fn authors_eq(a: &Vec<Author>, b: &Vec<Author>) -> (r: bool)
    ensures
        r == (a@.map_values(|x: Author| x@) == b@.map_values(|x: Author| x@)),
{
    let ghost av = a@.map_values(|x: Author| x@);
    let ghost bv = b@.map_values(|x: Author| x@);
    if a.len() != b.len() {
        proof {
            assert(av.len() != bv.len());
        }
        return false;
    }
    let mut i: usize = 0;
    while i < a.len()
        invariant
            i <= a@.len(),
            a@.len() == b@.len(),
            av == a@.map_values(|x: Author| x@),
            bv == b@.map_values(|x: Author| x@),
            forall|j: int| 0 <= j < i ==> av[j] == bv[j],
        decreases a@.len() - i,
    {
        if !a[i].eq(&b[i]) {
            proof {
                assert(av[i as int] != bv[i as int]);
            }
            return false;
        }
        i = i + 1;
    }
    proof {
        assert(av =~= bv);
    }
    true
}

fn strings_eq(a: &Vec<String>, b: &Vec<String>) -> (r: bool)
    ensures
        r == (a@.map_values(|x: String| x@) == b@.map_values(|x: String| x@)),
{
    let ghost av = a@.map_values(|x: String| x@);
    let ghost bv = b@.map_values(|x: String| x@);
    if a.len() != b.len() {
        proof {
            assert(av.len() != bv.len());
        }
        return false;
    }
    let mut i: usize = 0;
    while i < a.len()
        invariant
            i <= a@.len(),
            a@.len() == b@.len(),
            av == a@.map_values(|x: String| x@),
            bv == b@.map_values(|x: String| x@),
            forall|j: int| 0 <= j < i ==> av[j] == bv[j],
        decreases a@.len() - i,
    {
        if !a[i].eq(&b[i]) {
            proof {
                assert(av[i as int] != bv[i as int]);
            }
            return false;
        }
        i = i + 1;
    }
    proof {
        assert(av =~= bv);
    }
    true
}

fn isbns_eq(a: &Vec<Isbn>, b: &Vec<Isbn>) -> (r: bool)
    ensures
        r == (a@.map_values(|x: Isbn| x@) == b@.map_values(|x: Isbn| x@)),
{
    let ghost av = a@.map_values(|x: Isbn| x@);
    let ghost bv = b@.map_values(|x: Isbn| x@);
    if a.len() != b.len() {
        proof {
            assert(av.len() != bv.len());
        }
        return false;
    }
    let mut i: usize = 0;
    while i < a.len()
        invariant
            i <= a@.len(),
            a@.len() == b@.len(),
            av == a@.map_values(|x: Isbn| x@),
            bv == b@.map_values(|x: Isbn| x@),
            forall|j: int| 0 <= j < i ==> av[j] == bv[j],
        decreases a@.len() - i,
    {
        if !a[i].eq(&b[i]) {
            proof {
                assert(av[i as int] != bv[i as int]);
            }
            return false;
        }
        i = i + 1;
    }
    proof {
        assert(av =~= bv);
    }
    true
}

fn dates_eq(a: &Option<Date>, b: &Option<Date>) -> (r: bool)
    ensures
        r == (*a == *b),
{
    match (a, b) {
        (Some(x), Some(y)) => *x == *y,
        (None, None) => true,
        _ => false,
    }
}

impl PartialEq for Book {
    fn eq(&self, other: &Self) -> bool {
        self.title.eq(&other.title) && authors_eq(&self.authors, &other.authors) && strings_eq(
            &self.kind,
            &other.kind,
        ) && dates_eq(&self.pubdate, &other.pubdate) && self.publisher.eq(&other.publisher)
            && self.pages == other.pages && isbns_eq(&self.isbn, &other.isbn) && self.summary.eq(
            &other.summary,
        ) && self.cover.eq(&other.cover)
    }
}

impl vstd::std_specs::cmp::PartialEqSpecImpl for Book {
    open spec fn obeys_eq_spec() -> bool {
        true
    }

    open spec fn eq_spec(&self, other: &Book) -> bool {
        self@ == other@
    }
}

/// The text shortened for display: when its byte length is over the limit,
/// at most that many characters are kept and an ellipsis is appended.
pub open spec fn ellipsis_of(s: Seq<char>, max: int) -> Seq<char> {
    if encode_utf8(s).len() > max {
        let keep = if max < s.len() {
            max
        } else {
            s.len() as int
        };
        s.take(keep) + "..."@
    } else {
        s
    }
}

/// Shortens a text for display.
pub fn ellipsis(text: &String, max: usize) -> (r: String)
    ensures
        r@ == ellipsis_of(text@, max as int),
{
    let byte_len = text.as_str().as_bytes().len();
    if byte_len > max {
        let n = text.as_str().unicode_len();
        let keep = if max < n {
            max
        } else {
            n
        };
        let mut prepared = text.as_str().substring_char(0, keep).to_owned();
        prepared.append("...");
        prepared
    } else {
        text.clone()
    }
}

/// The record rendered for display: each long text shortened, the authors
/// and identifiers rendered and joined, the date in ISO order.
pub open spec fn book_display_of(b: BookV) -> Seq<char> {
    "Book[ #title["@ + ellipsis_of(b.title, 30) + "], #authors["@ + join_of(
        b.authors.map_values(|a: AuthorV| author_display_of(a)),
        ", "@,
    ) + "], #kind["@ + join_of(b.kind, ", "@) + "], "@ + (match b.pubdate {
        Some(d) => date_iso_of(d),
        None => Seq::empty(),
    }) + ", "@ + b.publisher + ", "@ + dec_of(b.pages as nat) + ", "@ + join_of(
        b.isbn.map_values(|i: IsbnV| isbn_display_of(i)),
        ", "@,
    ) + ", #summary["@ + ellipsis_of(b.summary, 30) + "], #cover["@ + b.cover + "] ]"@
}

impl Book {
    /// Renders the record for display.
    pub fn to_string(&self) -> (r: String)
        ensures
            r@ == book_display_of(self@),
    {
        let mut author_parts: Vec<String> = Vec::new();
        let mut i: usize = 0;
        while i < self.authors.len()
            invariant
                i <= self.authors@.len(),
                author_parts@.len() == i,
                forall|j: int|
                    0 <= j < i ==> #[trigger] author_parts@[j]@ == author_display_of(
                        self@.authors[j],
                    ),
            decreases self.authors@.len() - i,
        {
            author_parts.push(self.authors[i].to_string());
            i = i + 1;
        }
        proof {
            assert(author_parts@.map_values(|p: String| p@) =~= self@.authors.map_values(
                |a: AuthorV| author_display_of(a),
            ));
        }
        let mut isbn_parts: Vec<String> = Vec::new();
        let mut k: usize = 0;
        while k < self.isbn.len()
            invariant
                k <= self.isbn@.len(),
                isbn_parts@.len() == k,
                forall|j: int|
                    0 <= j < k ==> #[trigger] isbn_parts@[j]@ == isbn_display_of(self@.isbn[j]),
            decreases self.isbn@.len() - k,
        {
            isbn_parts.push(self.isbn[k].to_string());
            k = k + 1;
        }
        proof {
            assert(isbn_parts@.map_values(|p: String| p@) =~= self@.isbn.map_values(
                |x: IsbnV| isbn_display_of(x),
            ));
        }
        let mut s = "Book[ #title[".to_owned();
        s.append(ellipsis(&self.title, 30).as_str());
        s.append("], #authors[");
        s.append(join_with(&author_parts, ", ").as_str());
        s.append("], #kind[");
        s.append(join_with(&self.kind, ", ").as_str());
        s.append("], ");
        match &self.pubdate {
            Some(d) => {
                s.append(format_date_iso(d).as_str());
            },
            None => {},
        }
        s.append(", ");
        s.append(self.publisher.as_str());
        s.append(", ");
        s.append(crate::text::u64_to_string(self.pages as u64).as_str());
        s.append(", ");
        s.append(join_with(&isbn_parts, ", ").as_str());
        s.append(", #summary[");
        s.append(ellipsis(&self.summary, 30).as_str());
        s.append("], #cover[");
        s.append(self.cover.as_str());
        s.append("] ]");
        s
    }
}

} // verus!

