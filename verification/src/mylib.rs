//! The per-record pipeline: the deterministic identity hash, cover
//! resolution over a fetched response, and serialization of one record to
//! the fixed-column output row.

use vstd::prelude::*;
use vstd::string::StrSliceExecFns;
use vstd::string::StringExecFns;

use crate::codex::{Book, BookV, date_row_of};
use crate::model::{Isbn, IsbnV, isbn_bare_of};
use crate::text::{dec_int_of, dec_of, eq_str, join_of, join_with, u64_to_string};

verus! {

broadcast use vstd::seq_lib::group_seq_properties;

/// The default directory covers are imported from.
pub const DEFAULT_COVER_DIRECTORY: &'static str = "/MyLibrary/Images/Books";

/// The multiplier of the identity hash.
pub const JAVA_HASH_SEED: i32 = 31;

/// One step of the identity hash: the accumulator times the seed plus the
/// character's code point, in wrapping 32-bit two's-complement arithmetic.
pub open spec fn hash_push(h: i32, c: char) -> i32 {
    vstd::wrapping::i32_specs::wrapping_add(
        vstd::wrapping::i32_specs::wrapping_mul(JAVA_HASH_SEED, h),
        c as i32,
    )
}

/// The identity hash of a text: the well-known 31-based string hash, by
/// Unicode code point, with silent 32-bit wraparound.
pub open spec fn java_hash_of(s: Seq<char>) -> i32
    decreases s.len(),
{
    if s.len() == 0 {
        0
    } else {
        hash_push(java_hash_of(s.drop_last()), s.last())
    }
}

/// Computes the identity hash of a text.
pub fn java_hashcode(str: String) -> (h: i32)
    ensures
        h == java_hash_of(str@),
{
    let s = str.as_str();
    let n = s.unicode_len();
    let mut h: i32 = 0;
    let mut i: usize = 0;
    while i < n
        invariant
            i <= n,
            n == s@.len(),
            s@ == str@,
            h == java_hash_of(str@.take(i as int)),
        decreases n - i,
    {
        let c = s.get_char(i);
        proof {
            assert(str@.take(i + 1).drop_last() =~= str@.take(i as int));
            assert(str@.take(i + 1).last() == str@[i as int]);
        }
        h = JAVA_HASH_SEED.wrapping_mul(h).wrapping_add(c as i32);
        i = i + 1;
    }
    proof {
        assert(str@.take(n as int) =~= str@);
    }
    h
}

/// An error of the per-record pipeline.
#[derive(Debug, PartialEq, Eq, Structural, Clone, Copy)]
pub enum MylibError {
    MissingAuthor,
}

/// Computes the hash identifying a record: the hash of the title
/// concatenated with the first author's display name. A record with no
/// author has no identity to hash, which fails this one record.
pub fn book_hashcode(title: &String, authors: &Vec<String>) -> (r: Result<i32, MylibError>)
    ensures
        authors@.len() == 0 ==> r == Err::<i32, MylibError>(MylibError::MissingAuthor),
        authors@.len() > 0 ==> r == Ok::<i32, MylibError>(java_hash_of(title@ + authors@[0]@)),
{
    if authors.len() == 0 {
        Err(MylibError::MissingAuthor)
    } else {
        let mut repr = title.clone();
        repr.append(authors[0].as_str());
        Ok(java_hashcode(repr))
    }
}

/// A character of the standard base64 alphabet, including the padding
/// character.
pub open spec fn is_base64_char(c: char) -> bool {
    ('A' <= c && c <= 'Z') || ('a' <= c && c <= 'z') || ('0' <= c && c <= '9') || c == '+' || c
        == '/' || c == '='
}

/// What the base64 encoder returns on a byte input, under the standard
/// alphabet with padding.
pub uninterp spec fn base64_of(bytes: Seq<u8>) -> Seq<char>;

/// Relies on base64::encode: the standard alphabet with padding, four
/// output characters for every started group of three input bytes, and the
/// result depends on the bytes alone.
#[verifier::external_body]
fn base64_encode(bytes: &Vec<u8>) -> (r: String)
    ensures
        r@ == base64_of(bytes@),
        r@.len() == 4 * ((bytes@.len() + 2) / 3),
        forall|i: int| 0 <= i < r@.len() ==> is_base64_char(#[trigger] r@[i]),
{
    base64::encode(bytes)
}

/// Text the JSON encoder writes through unchanged: no double quote, no
/// backslash, no control character.
pub open spec fn json_plain(s: Seq<char>) -> bool {
    forall|i: int| 0 <= i < s.len() ==> (#[trigger] s[i] as u32) >= 0x20 && s[i] != '"' && s[i]
        != '\\'
}

/// The cover side-record: one compact JSON object with the keys in the
/// fixed order they are inserted.
pub open spec fn cover_json_of(b64: Seq<char>, hashcode: int) -> Seq<char> {
    "{\"base64Image\":\""@ + b64 + "\",\"elementHashcode\":"@ + dec_int_of(hashcode)
        + ",\"imageOrientation\":0,\"type\":\"BOOK\"}"@
}

/// Relies on json's object and stringify: keys come out in insertion
/// order, compact, strings written verbatim when no character needs an
/// escape, and an integer in plain decimal. The hash is widened before it
/// is inserted: the crate's number conversion negates a negative value in
/// its own width, which the smallest 32-bit value would overflow.
#[verifier::external_body]
fn cover_json_line(b64: &String, hashcode: i32) -> (r: String)
    requires
        json_plain(b64@),
    ensures
        r@ == cover_json_of(b64@, hashcode as int),
{
    let mut obj = json::object::Object::new();
    obj.insert("base64Image", b64.as_str().into());
    obj.insert("elementHashcode", (hashcode as i64).into());
    obj.insert("imageOrientation", 0i64.into());
    obj.insert("type", "BOOK".into());
    json::stringify(json::JsonValue::Object(obj))
}

/// What the tabular encoder writes for one record: the fields separated by
/// `;`, non-numeric fields quoted (a quote doubled), a newline at the end.
/// The bytes depend on the fields alone.
pub uninterp spec fn csv_row_of(fields: Seq<Seq<char>>) -> Seq<u8>;

/// Relies on csv's Writer over an in-memory buffer: one record written
/// with `;` as the separator and non-numeric quoting, then the buffer.
#[verifier::external_body]
fn csv_row(fields: &Vec<String>) -> (r: Vec<u8>)
    ensures
        r@ == csv_row_of(fields@.map_values(|f: String| f@)),
{
    let mut w = csv::WriterBuilder::new().delimiter(b';').quote_style(
        csv::QuoteStyle::NonNumeric,
    ).from_writer(Vec::new());
    let _ = w.write_record(fields);
    match w.into_inner() {
        Ok(buf) => buf,
        Err(_) => Vec::new(),
    }
}

/// What came back for a cover URL: a transport failure, a response with a
/// failing status, or a response body with its declared content type.
pub enum Fetched {
    Transport,
    BadStatus,
    Body { bytes: Vec<u8>, content_type: Option<String> },
}

/// The mathematical value of a fetch outcome.
pub enum FetchedV {
    Transport,
    BadStatus,
    Body { bytes: Seq<u8>, content_type: Option<Seq<char>> },
}

impl View for Fetched {
    type V = FetchedV;

    open spec fn view(&self) -> FetchedV {
        match self {
            Fetched::Transport => FetchedV::Transport,
            Fetched::BadStatus => FetchedV::BadStatus,
            Fetched::Body { bytes, content_type } => FetchedV::Body {
                bytes: bytes@,
                content_type: match content_type {
                    Some(c) => Some(c@),
                    None => None,
                },
            },
        }
    }
}

/// Why a cover could not be resolved for one record.
#[derive(Debug, PartialEq, Eq, Structural, Clone, Copy)]
pub enum CoverError {
    Transport,
    BadStatus,
    EmptyBody,
}

/// The response's content type, with the default taken for a missing or
/// unreadable header.
pub open spec fn content_type_or_default(ct: Option<Seq<char>>) -> Seq<char> {
    match ct {
        Some(c) => c,
        None => "image/jpeg"@,
    }
}

/// The image side-line for a response body: the JSON cover record,
/// terminated by a carriage return and newline.
pub open spec fn cover_line_of(bytes: Seq<u8>, hashcode: int) -> Seq<char> {
    cover_json_of(base64_of(bytes), hashcode) + "\r\n"@
}

/// Re-encodes a fetched cover as one base64 JSON side-line. A transport
/// failure, a failing status, or an empty body fails this one record; on
/// success the line and the response's content type come back, the caller
/// derives the file extension and writes the line.
pub fn resolve_cover(fetched: Fetched, hashcode: i32) -> (r: Result<(String, String), CoverError>)
    ensures
        (match fetched@ {
            FetchedV::Transport => r == Err::<(String, String), CoverError>(CoverError::Transport),
            FetchedV::BadStatus => r == Err::<(String, String), CoverError>(CoverError::BadStatus),
            FetchedV::Body { bytes, content_type } => {
                if bytes.len() == 0 {
                    r == Err::<(String, String), CoverError>(CoverError::EmptyBody)
                } else {
                    r matches Ok(p) && p.0@ == cover_line_of(bytes, hashcode as int) && p.1@
                        == content_type_or_default(content_type)
                }
            },
        }),
{
    match fetched {
        Fetched::Transport => Err(CoverError::Transport),
        Fetched::BadStatus => Err(CoverError::BadStatus),
        Fetched::Body { bytes, content_type } => {
            if bytes.len() == 0 {
                Err(CoverError::EmptyBody)
            } else {
                let b64 = base64_encode(&bytes);
                let mut line = cover_json_line(&b64, hashcode);
                line.append("\r\n");
                let tpe = match content_type {
                    Some(c) => c,
                    None => "image/jpeg".to_owned(),
                };
                Ok((line, tpe))
            }
        },
    }
}

/// The first identifier classified ISBN-13 in the list, if any.
pub open spec fn first_isbn13(s: Seq<IsbnV>) -> Option<u64>
    decreases s.len(),
{
    if s.len() == 0 {
        None
    } else {
        match s[0] {
            IsbnV::Isbn13(v) => Some(v),
            _ => first_isbn13(s.drop_first()),
        }
    }
}

/// The identifier the output row carries, bare: the first ISBN-13 in the
/// list, else the first identifier of any kind, else nothing.
pub open spec fn isbn_row_of(s: Seq<IsbnV>) -> Seq<char> {
    match first_isbn13(s) {
        Some(v) => dec_of(v as nat),
        None => if s.len() > 0 {
            isbn_bare_of(s[0])
        } else {
            Seq::empty()
        },
    }
}

proof fn lemma_first_isbn13_skip(s: Seq<IsbnV>, i: int)
    requires
        0 <= i <= s.len(),
        forall|j: int| 0 <= j < i ==> !(#[trigger] s[j] matches IsbnV::Isbn13(_)),
    ensures
        first_isbn13(s) == first_isbn13(s.skip(i)),
    decreases i,
{
    if i > 0 {
        lemma_first_isbn13_skip(s, i - 1);
        assert(s.skip(i - 1).len() > 0);
        assert(s.skip(i - 1)[0] == s[i - 1]);
        assert(s.skip(i - 1).drop_first() =~= s.skip(i));
    } else {
        assert(s.skip(0) =~= s);
    }
}

/// Picks the identifier for the output row.
pub fn isbn_row(isbns: &Vec<Isbn>) -> (r: String)
    ensures
        r@ == isbn_row_of(isbns@.map_values(|x: Isbn| x@)),
{
    let ghost sv = isbns@.map_values(|x: Isbn| x@);
    let mut i: usize = 0;
    while i < isbns.len()
        invariant
            i <= isbns@.len(),
            sv == isbns@.map_values(|x: Isbn| x@),
            sv.len() == isbns@.len(),
            forall|j: int| 0 <= j < i ==> !(#[trigger] sv[j] matches IsbnV::Isbn13(_)),
        decreases isbns@.len() - i,
    {
        match &isbns[i] {
            Isbn::Isbn13(v) => {
                proof {
                    lemma_first_isbn13_skip(sv, i as int);
                    assert(sv.skip(i as int)[0] == sv[i as int]);
                    assert(first_isbn13(sv) == Some(*v));
                }
                return u64_to_string(*v);
            },
            _ => {},
        }
        i = i + 1;
    }
    proof {
        lemma_first_isbn13_skip(sv, sv.len() as int);
        assert(sv.skip(sv.len() as int).len() == 0);
    }
    if isbns.len() > 0 {
        isbns[0].bare_value()
    } else {
        String::new()
    }
}

/// The display names of a record's authors, in order.
pub open spec fn author_names_of(b: BookV) -> Seq<Seq<char>> {
    b.authors.map_values(|a: crate::codex::AuthorV| a.name)
}

fn author_names(book: &Book) -> (r: Vec<String>)
    ensures
        r@.map_values(|s: String| s@) == author_names_of(book@),
{
    let mut names: Vec<String> = Vec::new();
    let mut i: usize = 0;
    while i < book.authors.len()
        invariant
            i <= book.authors@.len(),
            names@.len() == i,
            forall|j: int| 0 <= j < i ==> #[trigger] names@[j]@ == book@.authors[j].name,
        decreases book.authors@.len() - i,
    {
        names.push(book.authors[i].name.clone());
        i = i + 1;
    }
    proof {
        assert(names@.map_values(|s: String| s@) =~= author_names_of(book@));
    }
    names
}

/// The view of a fetch outcome handed in, if one was.
pub open spec fn opt_fetched_view(f: Option<Fetched>) -> Option<FetchedV> {
    match f {
        Some(x) => Some(x@),
        None => None,
    }
}

/// The view of an optional side-line.
pub open spec fn opt_string_view(o: Option<String>) -> Option<Seq<char>> {
    match o {
        Some(x) => Some(x@),
        None => None,
    }
}

/// The hash identifying a record, defined when it has at least one author.
pub open spec fn record_hash_of(b: BookV) -> i32 {
    java_hash_of(b.title + b.authors[0].name)
}

/// The file extension derived from a content type: `png` exactly for
/// `image/png`, `jpg` for everything else.
pub open spec fn extension_of(content_type: Seq<char>) -> Seq<char> {
    if content_type == "image/png"@ {
        "png"@
    } else {
        "jpg"@
    }
}

/// The cover column of the output row. An empty string means no cover was
/// ever declared; the sentinel `_invalid_` means a cover was declared and
/// could not be resolved: no author to hash, no fetch outcome, a transport
/// or status failure, or an empty body. On success the column holds the
/// storage path: the cover directory, the row's identifier (or the hash
/// rendered in decimal when the row has none), and the extension.
pub open spec fn cover_path_of(b: BookV, cover_dir: Seq<char>, f: Option<FetchedV>) -> Seq<char> {
    if b.cover.len() == 0 {
        Seq::empty()
    } else if b.authors.len() == 0 {
        "_invalid_"@
    } else {
        match f {
            Some(FetchedV::Body { bytes, content_type }) => {
                if bytes.len() == 0 {
                    "_invalid_"@
                } else {
                    let id = if isbn_row_of(b.isbn).len() == 0 {
                        dec_int_of(record_hash_of(b) as int)
                    } else {
                        isbn_row_of(b.isbn)
                    };
                    cover_dir + "/"@ + id + "."@ + extension_of(
                        content_type_or_default(content_type),
                    )
                }
            },
            _ => "_invalid_"@,
        }
    }
}

/// The image side-line the record produces: present exactly when a cover
/// was declared, an author was there to hash, and the fetch returned a
/// non-empty body.
pub open spec fn img_line_of(b: BookV, f: Option<FetchedV>) -> Option<Seq<char>> {
    if b.cover.len() > 0 && b.authors.len() > 0 {
        match f {
            Some(FetchedV::Body { bytes, content_type }) => {
                if bytes.len() > 0 {
                    Some(cover_line_of(bytes, record_hash_of(b) as int))
                } else {
                    None
                }
            },
            _ => None,
        }
    } else {
        None
    }
}

/// The thirteen columns of the output row, in their fixed order: title,
/// author display names joined by a comma, the unused series column, the
/// categories joined by a comma, the publish date (or empty), the
/// publisher, the page count in decimal, the bare preferred identifier (or
/// empty), three unused columns, the summary, and the cover column.
pub open spec fn row_fields_of(b: BookV, cover_path: Seq<char>) -> Seq<Seq<char>> {
    seq![
        b.title,
        join_of(author_names_of(b), ", "@),
        Seq::empty(),
        join_of(b.kind, ", "@),
        (match b.pubdate {
            Some(d) => date_row_of(d),
            None => Seq::empty(),
        }),
        b.publisher,
        dec_of(b.pages as nat),
        isbn_row_of(b.isbn),
        Seq::empty(),
        Seq::empty(),
        Seq::empty(),
        b.summary,
        cover_path,
    ]
}

fn cover_column(
    book: &Book,
    cover_dir: &str,
    fetched: Option<Fetched>,
    authors: &Vec<String>,
    isbn: &String,
) -> (r: (String, Option<String>))
    requires
        authors@.map_values(|s: String| s@) == author_names_of(book@),
        isbn@ == isbn_row_of(book@.isbn),
    ensures
        r.0@ == cover_path_of(book@, cover_dir@, opt_fetched_view(fetched)),
        opt_string_view(r.1) == img_line_of(book@, opt_fetched_view(fetched)),
{
    proof {
        assert(authors@.map_values(|s: String| s@).len() == authors@.len());
        assert(author_names_of(book@).len() == book@.authors.len());
    }
    if book.cover.as_str().is_empty() {
        return (String::new(), None);
    }
    let h = match book_hashcode(&book.title, authors) {
        Err(_) => {
            return ("_invalid_".to_owned(), None);
        },
        Ok(h) => h,
    };
    proof {
        assert(authors@[0]@ == author_names_of(book@)[0]);
        assert(author_names_of(book@)[0] == book@.authors[0].name);
        assert(h == record_hash_of(book@));
    }
    let f = match fetched {
        None => {
            return ("_invalid_".to_owned(), None);
        },
        Some(f) => f,
    };
    match resolve_cover(f, h) {
        Err(_) => ("_invalid_".to_owned(), None),
        Ok(resolved) => {
            let (line, tpe) = resolved;
            let ext: &str = if eq_str(tpe.as_str(), "image/png") {
                "png"
            } else {
                "jpg"
            };
            let id = if isbn.as_str().is_empty() {
                crate::text::i32_to_string(h)
            } else {
                isbn.clone()
            };
            let mut path = cover_dir.to_owned();
            path.append("/");
            path.append(id.as_str());
            path.append(".");
            path.append(ext);
            (path, Some(line))
        },
    }
}

/// Serializes one record, with whatever came back for its cover, to the
/// bytes of one output row and at most one image side-line. The record is
/// always serialized: a cover failure only degrades the cover column to
/// the sentinel value.
pub fn write(book: &Book, cover_dir: &str, fetched: Option<Fetched>) -> (r: (
    Vec<u8>,
    Option<String>,
))
    ensures
        r.0@ == csv_row_of(row_fields_of(book@, cover_path_of(book@, cover_dir@, opt_fetched_view(
            fetched,
        )))),
        opt_string_view(r.1) == img_line_of(book@, opt_fetched_view(fetched)),
{
    let authors = author_names(book);
    let pubdate = match &book.pubdate {
        Some(d) => crate::codex::format_date_row(d),
        None => String::new(),
    };
    let isbn = isbn_row(&book.isbn);
    let outcome = cover_column(book, cover_dir, fetched, &authors, &isbn);
    let (cover_path, img) = outcome;
    let mut fields: Vec<String> = Vec::new();
    fields.push(book.title.clone());
    fields.push(join_with(&authors, ", "));
    fields.push(String::new());
    fields.push(join_with(&book.kind, ", "));
    fields.push(pubdate);
    fields.push(book.publisher.clone());
    fields.push(u64_to_string(book.pages as u64));
    fields.push(isbn);
    fields.push(String::new());
    fields.push(String::new());
    fields.push(String::new());
    fields.push(book.summary.clone());
    fields.push(cover_path);
    proof {
        assert(fields@.map_values(|f: String| f@) =~= row_fields_of(
            book@,
            cover_path_of(book@, cover_dir@, opt_fetched_view(fetched)),
        ));
    }
    let row = csv_row(&fields);
    (row, img)
}

/// Serialization is deterministic: the same record, cover directory and
/// fetch outcome give byte-identical rows and identical side-lines, as
/// often as they are serialized.
pub proof fn lemma_write_idempotent(
    b1: BookV,
    b2: BookV,
    dir1: Seq<char>,
    dir2: Seq<char>,
    f1: Option<FetchedV>,
    f2: Option<FetchedV>,
)
    requires
        b1 == b2,
        dir1 == dir2,
        f1 == f2,
    ensures
        csv_row_of(row_fields_of(b1, cover_path_of(b1, dir1, f1))) == csv_row_of(
            row_fields_of(b2, cover_path_of(b2, dir2, f2)),
        ),
        img_line_of(b1, f1) == img_line_of(b2, f2),
{
}

/// A cover fetch that came back with a failing status degrades only the
/// cover column: the row still carries the sentinel value, and no image
/// side-line is produced.
pub proof fn lemma_bad_status_sentinel(b: BookV, dir: Seq<char>)
    requires
        b.cover.len() > 0,
    ensures
        cover_path_of(b, dir, Some(FetchedV::BadStatus)) == "_invalid_"@,
        img_line_of(b, Some(FetchedV::BadStatus)) == None::<Seq<char>>,
{
}

} // verus!
