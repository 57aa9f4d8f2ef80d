//! The event-driven extractor: consumes a stream of XML parse events and
//! rebuilds one complete book record per closing `book` element, without
//! building a document tree.
//!
//! Each region of the document (publisher, categories, identifiers,
//! authors) is tracked by its own small state enum; the regions are
//! siblings inside one `book` element and do not nest with each other.

use vstd::prelude::*;

use crate::codex::{
    Author, AuthorV, Book, BookV, date_of, empty_author, empty_author_v, empty_book,
    empty_book_v,
};
use crate::model::{Isbn, IsbnV};
use crate::text::{eq_str, parse_u16_of, parse_u64, parse_u64_of};

verus! {

/// One event of the underlying XML parse: the start or end of an element
/// (by its local name), a run of character data, any other well-formed
/// event, or a malformed event, which is skipped.
pub enum Event {
    Start(String),
    End(String),
    Text(String),
    Other,
    Error,
}

/// The mathematical value of a parse event.
pub enum EventV {
    Start(Seq<char>),
    End(Seq<char>),
    Text(Seq<char>),
    Other,
    Error,
}

impl View for Event {
    type V = EventV;

    open spec fn view(&self) -> EventV {
        match self {
            Event::Start(n) => EventV::Start(n@),
            Event::End(n) => EventV::End(n@),
            Event::Text(t) => EventV::Text(t@),
            Event::Other => EventV::Other,
            Event::Error => EventV::Error,
        }
    }
}

/// Where the extractor stands inside a `publisher` block.
#[derive(Debug, PartialEq, Eq, Structural, Clone, Copy)]
pub enum PublisherState {
    Outside,
    InBlock,
    InName,
}

/// Where the extractor stands inside a `categories` block.
#[derive(Debug, PartialEq, Eq, Structural, Clone, Copy)]
pub enum CategoryState {
    Outside,
    InBlock,
    InCategory,
}

/// Where the extractor stands inside an `identifiers` block.
#[derive(Debug, PartialEq, Eq, Structural, Clone, Copy)]
pub enum IdentifierState {
    Outside,
    InBlock,
    InIdentifier,
    InType,
    InValue,
}

/// Where the extractor stands inside an `authors` block.
#[derive(Debug, PartialEq, Eq, Structural, Clone, Copy)]
pub enum AuthorState {
    Outside,
    InBlock,
    InAuthor,
    InFirstName,
    InLastName,
    InDisplayName,
}

/// The identifier type declared by the `type` element of the identifier
/// being read: unset until a known ISBN label is seen, and consumed when
/// the `value` element's text arrives.
#[derive(Debug, PartialEq, Eq, Structural, Clone, Copy)]
pub enum IdType {
    Unset,
    Ten,
    Thirteen,
}

/// Whether the author region stands inside one `author` element, possibly
/// in one of its named children.
pub open spec fn author_in_author(st: AuthorState) -> bool {
    st == AuthorState::InAuthor || st == AuthorState::InFirstName || st == AuthorState::InLastName
        || st == AuthorState::InDisplayName
}

/// The extractor's whole state: the top-level flags, one state per region,
/// the identifier-type selector, and the record and author accumulators.
pub struct Extractor {
    pub in_book: bool,
    pub in_title: bool,
    pub in_page_count: bool,
    pub in_publish_date: bool,
    pub in_description: bool,
    pub in_cover: bool,
    pub publisher: PublisherState,
    pub category: CategoryState,
    pub identifier: IdentifierState,
    pub author_state: AuthorState,
    pub id_type: IdType,
    pub book: Book,
    pub author: Author,
}

/// The mathematical value of the extractor's state.
#[verifier::ext_equal]
pub struct ExtractorV {
    pub in_book: bool,
    pub in_title: bool,
    pub in_page_count: bool,
    pub in_publish_date: bool,
    pub in_description: bool,
    pub in_cover: bool,
    pub publisher: PublisherState,
    pub category: CategoryState,
    pub identifier: IdentifierState,
    pub author_state: AuthorState,
    pub id_type: IdType,
    pub book: BookV,
    pub author: AuthorV,
}

impl View for Extractor {
    type V = ExtractorV;

    open spec fn view(&self) -> ExtractorV {
        ExtractorV {
            in_book: self.in_book,
            in_title: self.in_title,
            in_page_count: self.in_page_count,
            in_publish_date: self.in_publish_date,
            in_description: self.in_description,
            in_cover: self.in_cover,
            publisher: self.publisher,
            category: self.category,
            identifier: self.identifier,
            author_state: self.author_state,
            id_type: self.id_type,
            book: self.book@,
            author: self.author@,
        }
    }
}

/// The extractor's initial state: outside every region, with empty
/// accumulators.
pub open spec fn init_v() -> ExtractorV {
    ExtractorV {
        in_book: false,
        in_title: false,
        in_page_count: false,
        in_publish_date: false,
        in_description: false,
        in_cover: false,
        publisher: PublisherState::Outside,
        category: CategoryState::Outside,
        identifier: IdentifierState::Outside,
        author_state: AuthorState::Outside,
        id_type: IdType::Unset,
        book: empty_book_v(),
        author: empty_author_v(),
    }
}

/// What a start-element event does to the state. The branches stand in the
/// order the events are matched: the first condition that holds applies.
pub open spec fn start_spec(s: ExtractorV, n: Seq<char>) -> ExtractorV {
    if n == "book"@ {
        ExtractorV { in_book: true, ..s }
    } else if s.in_book && n == "title"@ {
        ExtractorV { in_title: true, ..s }
    } else if s.in_book && n == "coverUrl"@ {
        ExtractorV { in_cover: true, ..s }
    } else if s.in_book && n == "publisher"@ {
        ExtractorV { publisher: PublisherState::InBlock, ..s }
    } else if s.publisher == PublisherState::InBlock && n == "name"@ {
        ExtractorV { publisher: PublisherState::InName, ..s }
    } else if s.in_book && n == "categories"@ {
        ExtractorV { category: CategoryState::InBlock, ..s }
    } else if s.category == CategoryState::InBlock && n == "category"@ {
        ExtractorV { category: CategoryState::InCategory, ..s }
    } else if s.in_book && n == "identifiers"@ {
        ExtractorV { identifier: IdentifierState::InBlock, ..s }
    } else if s.identifier == IdentifierState::InBlock && n == "identifier"@ {
        ExtractorV { identifier: IdentifierState::InIdentifier, ..s }
    } else if s.identifier == IdentifierState::InIdentifier && n == "type"@ {
        ExtractorV { identifier: IdentifierState::InType, ..s }
    } else if s.identifier == IdentifierState::InIdentifier && n == "value"@ {
        ExtractorV { identifier: IdentifierState::InValue, ..s }
    } else if n == "authors"@ {
        ExtractorV { author_state: AuthorState::InBlock, ..s }
    } else if s.author_state == AuthorState::InBlock && n == "author"@ {
        ExtractorV { author_state: AuthorState::InAuthor, ..s }
    } else if author_in_author(s.author_state) && n == "firstName"@ {
        ExtractorV { author_state: AuthorState::InFirstName, ..s }
    } else if author_in_author(s.author_state) && n == "lastName"@ {
        ExtractorV { author_state: AuthorState::InLastName, ..s }
    } else if author_in_author(s.author_state) && n == "name"@ {
        ExtractorV { author_state: AuthorState::InDisplayName, ..s }
    } else if s.in_book && n == "pageCount"@ {
        ExtractorV { in_page_count: true, ..s }
    } else if s.in_book && n == "publishDate"@ {
        ExtractorV { in_publish_date: true, ..s }
    } else if s.in_book && n == "description"@ {
        ExtractorV { in_description: true, ..s }
    } else {
        s
    }
}

/// What an end-element event does to the state, and the record it emits:
/// the closing `book` element hands the accumulated record out and resets
/// the accumulator and the identifier-type selector; the closing `authors`
/// block pushes the in-progress author entry.
pub open spec fn end_spec(s: ExtractorV, n: Seq<char>) -> (ExtractorV, Option<BookV>) {
    if n == "book"@ {
        (
            ExtractorV { in_book: false, id_type: IdType::Unset, book: empty_book_v(), ..s },
            Some(s.book),
        )
    } else if s.in_book && n == "title"@ {
        (ExtractorV { in_title: false, ..s }, None)
    } else if s.in_book && n == "coverUrl"@ {
        (ExtractorV { in_cover: false, ..s }, None)
    } else if s.in_book && n == "publisher"@ {
        (ExtractorV { publisher: PublisherState::Outside, ..s }, None)
    } else if s.in_book && n == "categories"@ {
        (ExtractorV { category: CategoryState::Outside, ..s }, None)
    } else if s.in_book && n == "identifiers"@ {
        (ExtractorV { identifier: IdentifierState::Outside, ..s }, None)
    } else if s.identifier == IdentifierState::InIdentifier && n == "identifier"@ {
        (ExtractorV { identifier: IdentifierState::InBlock, ..s }, None)
    } else if s.identifier == IdentifierState::InType && n == "type"@ {
        (ExtractorV { identifier: IdentifierState::InIdentifier, ..s }, None)
    } else if s.identifier == IdentifierState::InValue && n == "value"@ {
        (ExtractorV { identifier: IdentifierState::InIdentifier, ..s }, None)
    } else if n == "authors"@ {
        (
            ExtractorV {
                author_state: AuthorState::Outside,
                book: BookV { authors: s.book.authors.push(s.author), ..s.book },
                author: empty_author_v(),
                ..s
            },
            None,
        )
    } else if n == "author"@ {
        (ExtractorV { author_state: AuthorState::InBlock, ..s }, None)
    } else if s.in_book && n == "pageCount"@ {
        (ExtractorV { in_page_count: false, ..s }, None)
    } else if s.in_book && n == "publishDate"@ {
        (ExtractorV { in_publish_date: false, ..s }, None)
    } else if s.in_book && n == "description"@ {
        (ExtractorV { in_description: false, ..s }, None)
    } else {
        (s, None)
    }
}

/// What an identifier-type label classifies to: the two known ISBN labels
/// select a variant; the known Google label and any unrecognized label
/// leave the selector unset, so the following value is ignored.
pub open spec fn classify_spec(t: Seq<char>) -> IdType {
    if t == "ISBN_10"@ {
        IdType::Ten
    } else if t == "ISBN_13"@ {
        IdType::Thirteen
    } else {
        IdType::Unset
    }
}

/// What a character-data event does to the state. Field-level parse
/// failures (date, page count, ISBN-13 value) leave the field as it was.
pub open spec fn text_spec(s: ExtractorV, t: Seq<char>) -> ExtractorV {
    if s.in_title {
        ExtractorV { book: BookV { title: t, ..s.book }, ..s }
    } else if s.in_cover {
        ExtractorV { book: BookV { cover: t, ..s.book }, ..s }
    } else if s.publisher == PublisherState::InName {
        ExtractorV { book: BookV { publisher: t, ..s.book }, ..s }
    } else if s.category == CategoryState::InCategory {
        ExtractorV { book: BookV { kind: s.book.kind.push(t), ..s.book }, ..s }
    } else if s.author_state == AuthorState::InFirstName {
        ExtractorV { author: AuthorV { first_name: t, ..s.author }, ..s }
    } else if s.author_state == AuthorState::InLastName {
        ExtractorV { author: AuthorV { last_name: t, ..s.author }, ..s }
    } else if s.author_state == AuthorState::InDisplayName {
        ExtractorV { author: AuthorV { name: t, ..s.author }, ..s }
    } else if s.identifier == IdentifierState::InType {
        ExtractorV { id_type: classify_spec(t), ..s }
    } else if s.identifier == IdentifierState::InValue && s.id_type != IdType::Unset {
        if s.id_type == IdType::Ten {
            ExtractorV { book: BookV { isbn: s.book.isbn.push(IsbnV::Isbn10(t)), ..s.book }, ..s }
        } else {
            match parse_u64_of(t) {
                Some(v) => ExtractorV {
                    book: BookV { isbn: s.book.isbn.push(IsbnV::Isbn13(v)), ..s.book },
                    ..s
                },
                None => s,
            }
        }
    } else if s.in_publish_date {
        match date_of(t) {
            Some(d) => ExtractorV { book: BookV { pubdate: Some(d), ..s.book }, ..s },
            None => s,
        }
    } else if s.in_description {
        ExtractorV { book: BookV { summary: t, ..s.book }, ..s }
    } else if s.in_page_count {
        match parse_u16_of(t) {
            Some(p) => ExtractorV { book: BookV { pages: p, ..s.book }, ..s },
            None => s,
        }
    } else {
        s
    }
}

/// What one event does to the state, and the record it emits, if any.
/// Well-formed events the extractor does not care about, and malformed
/// events, change nothing.
pub open spec fn step_spec(s: ExtractorV, e: EventV) -> (ExtractorV, Option<BookV>) {
    match e {
        EventV::Start(n) => (start_spec(s, n), None),
        EventV::End(n) => end_spec(s, n),
        EventV::Text(t) => (text_spec(s, t), None),
        EventV::Other => (s, None),
        EventV::Error => (s, None),
    }
}

/// The record emitted by an event, as a sequence of zero or one records.
pub open spec fn opt_seq(o: Option<BookV>) -> Seq<BookV> {
    match o {
        Some(b) => seq![b],
        None => Seq::empty(),
    }
}

/// The state after consuming a whole event sequence from a given state,
/// with every record emitted along the way, in document order.
pub open spec fn run_from(s: ExtractorV, evs: Seq<EventV>) -> (ExtractorV, Seq<BookV>)
    decreases evs.len(),
{
    if evs.len() == 0 {
        (s, Seq::empty())
    } else {
        let prev = run_from(s, evs.drop_last());
        let stepped = step_spec(prev.0, evs.last());
        (stepped.0, prev.1 + opt_seq(stepped.1))
    }
}

/// The records an event sequence yields from the initial state.
pub open spec fn books_of(evs: Seq<EventV>) -> Seq<BookV> {
    run_from(init_v(), evs).1
}

impl Extractor {
    /// Makes an extractor in its initial state.
    pub fn new() -> (ex: Extractor)
        ensures
            ex@ == init_v(),
    {
        let ex = Extractor {
            in_book: false,
            in_title: false,
            in_page_count: false,
            in_publish_date: false,
            in_description: false,
            in_cover: false,
            publisher: PublisherState::Outside,
            category: CategoryState::Outside,
            identifier: IdentifierState::Outside,
            author_state: AuthorState::Outside,
            id_type: IdType::Unset,
            book: empty_book(),
            author: empty_author(),
        };
        proof {
            assert(ex@ =~= init_v());
        }
        ex
    }

    fn step_start(&mut self, n: &String)
        ensures
            final(self)@ == start_spec(old(self)@, n@),
    {
        let name = n.as_str();
        if eq_str(name, "book") {
            self.in_book = true;
        } else if self.in_book && eq_str(name, "title") {
            self.in_title = true;
        } else if self.in_book && eq_str(name, "coverUrl") {
            self.in_cover = true;
        } else if self.in_book && eq_str(name, "publisher") {
            self.publisher = PublisherState::InBlock;
        } else if self.publisher == PublisherState::InBlock && eq_str(name, "name") {
            self.publisher = PublisherState::InName;
        } else if self.in_book && eq_str(name, "categories") {
            self.category = CategoryState::InBlock;
        } else if self.category == CategoryState::InBlock && eq_str(name, "category") {
            self.category = CategoryState::InCategory;
        } else if self.in_book && eq_str(name, "identifiers") {
            self.identifier = IdentifierState::InBlock;
        } else if self.identifier == IdentifierState::InBlock && eq_str(name, "identifier") {
            self.identifier = IdentifierState::InIdentifier;
        } else if self.identifier == IdentifierState::InIdentifier && eq_str(name, "type") {
            self.identifier = IdentifierState::InType;
        } else if self.identifier == IdentifierState::InIdentifier && eq_str(name, "value") {
            self.identifier = IdentifierState::InValue;
        } else if eq_str(name, "authors") {
            self.author_state = AuthorState::InBlock;
        } else if self.author_state == AuthorState::InBlock && eq_str(name, "author") {
            self.author_state = AuthorState::InAuthor;
        } else if self.in_author_element() && eq_str(name, "firstName") {
            self.author_state = AuthorState::InFirstName;
        } else if self.in_author_element() && eq_str(name, "lastName") {
            self.author_state = AuthorState::InLastName;
        } else if self.in_author_element() && eq_str(name, "name") {
            self.author_state = AuthorState::InDisplayName;
        } else if self.in_book && eq_str(name, "pageCount") {
            self.in_page_count = true;
        } else if self.in_book && eq_str(name, "publishDate") {
            self.in_publish_date = true;
        } else if self.in_book && eq_str(name, "description") {
            self.in_description = true;
        }
    }

    fn in_author_element(&self) -> (r: bool)
        ensures
            r == author_in_author(self.author_state),
    {
        self.author_state == AuthorState::InAuthor || self.author_state
            == AuthorState::InFirstName || self.author_state == AuthorState::InLastName
            || self.author_state == AuthorState::InDisplayName
    }

    #[verifier::rlimit(60)]
    fn step_end(&mut self, n: &String) -> (out: Option<Book>)
        ensures
            (final(self)@, opt_book_view(out)) == end_spec(old(self)@, n@),
    {
        let name = n.as_str();
        if eq_str(name, "book") {
            let mut finished = empty_book();
            core::mem::swap(&mut finished, &mut self.book);
            self.in_book = false;
            self.id_type = IdType::Unset;
            Some(finished)
        } else if self.in_book && eq_str(name, "title") {
            self.in_title = false;
            None
        } else if self.in_book && eq_str(name, "coverUrl") {
            self.in_cover = false;
            None
        } else if self.in_book && eq_str(name, "publisher") {
            self.publisher = PublisherState::Outside;
            None
        } else if self.in_book && eq_str(name, "categories") {
            self.category = CategoryState::Outside;
            None
        } else if self.in_book && eq_str(name, "identifiers") {
            self.identifier = IdentifierState::Outside;
            None
        } else if self.identifier == IdentifierState::InIdentifier && eq_str(name, "identifier") {
            self.identifier = IdentifierState::InBlock;
            None
        } else if self.identifier == IdentifierState::InType && eq_str(name, "type") {
            self.identifier = IdentifierState::InIdentifier;
            None
        } else if self.identifier == IdentifierState::InValue && eq_str(name, "value") {
            self.identifier = IdentifierState::InIdentifier;
            None
        } else if eq_str(name, "authors") {
            let mut entry = empty_author();
            core::mem::swap(&mut entry, &mut self.author);
            self.book.authors.push(entry);
            self.author_state = AuthorState::Outside;
            proof {
                assert(self.book@.authors =~= old(self)@.book.authors.push(old(self)@.author));
                assert(self.book@ =~= BookV {
                    authors: old(self)@.book.authors.push(old(self)@.author),
                    ..old(self)@.book
                });
            }
            None
        } else if eq_str(name, "author") {
            self.author_state = AuthorState::InBlock;
            None
        } else if self.in_book && eq_str(name, "pageCount") {
            self.in_page_count = false;
            None
        } else if self.in_book && eq_str(name, "publishDate") {
            self.in_publish_date = false;
            None
        } else if self.in_book && eq_str(name, "description") {
            self.in_description = false;
            None
        } else {
            None
        }
    }

    fn step_text(&mut self, t: &String)
        ensures
            final(self)@ == text_spec(old(self)@, t@),
    {
        if self.in_title {
            self.book.title = t.clone();
        } else if self.in_cover {
            self.book.cover = t.clone();
        } else if self.publisher == PublisherState::InName {
            self.book.publisher = t.clone();
        } else if self.category == CategoryState::InCategory {
            self.book.kind.push(t.clone());
            proof {
                assert(self.book@.kind =~= old(self)@.book.kind.push(t@));
                assert(self.book@ =~= BookV { kind: old(self)@.book.kind.push(t@), ..old(
                    self,
                )@.book });
            }
        } else if self.author_state == AuthorState::InFirstName {
            self.author.first_name = t.clone();
        } else if self.author_state == AuthorState::InLastName {
            self.author.last_name = t.clone();
        } else if self.author_state == AuthorState::InDisplayName {
            self.author.name = t.clone();
        } else if self.identifier == IdentifierState::InType {
            if eq_str(t.as_str(), "ISBN_10") {
                self.id_type = IdType::Ten;
            } else if eq_str(t.as_str(), "ISBN_13") {
                self.id_type = IdType::Thirteen;
            } else {
                self.id_type = IdType::Unset;
            }
        } else if self.identifier == IdentifierState::InValue && !(self.id_type == IdType::Unset) {
            if self.id_type == IdType::Ten {
                self.book.isbn.push(Isbn::Isbn10(t.clone()));
                proof {
                    assert(self.book@.isbn =~= old(self)@.book.isbn.push(IsbnV::Isbn10(t@)));
                    assert(self.book@ =~= BookV {
                        isbn: old(self)@.book.isbn.push(IsbnV::Isbn10(t@)),
                        ..old(self)@.book
                    });
                }
            } else {
                match parse_u64(t.as_str()) {
                    Some(v) => {
                        self.book.isbn.push(Isbn::Isbn13(v));
                        proof {
                            assert(self.book@.isbn =~= old(self)@.book.isbn.push(
                                IsbnV::Isbn13(v),
                            ));
                            assert(self.book@ =~= BookV {
                                isbn: old(self)@.book.isbn.push(IsbnV::Isbn13(v)),
                                ..old(self)@.book
                            });
                        }
                    },
                    None => {},
                }
            }
        } else if self.in_publish_date {
            match crate::codex::parse_date(t.as_str()) {
                Some(d) => {
                    self.book.pubdate = Some(d);
                },
                None => {},
            }
        } else if self.in_description {
            self.book.summary = t.clone();
        } else if self.in_page_count {
            match crate::text::parse_u16(t.as_str()) {
                Some(p) => {
                    self.book.pages = p;
                },
                None => {},
            }
        }
    }

    /// Feeds one event to the extractor; a completed record comes back on
    /// the closing `book` element.
    pub fn step(&mut self, e: &Event) -> (out: Option<Book>)
        ensures
            (final(self)@, opt_book_view(out)) == step_spec(old(self)@, e@),
    {
        match e {
            Event::Start(n) => {
                self.step_start(n);
                None
            },
            Event::End(n) => self.step_end(n),
            Event::Text(t) => {
                self.step_text(t);
                None
            },
            Event::Other => None,
            Event::Error => None,
        }
    }
}

/// The view of an emitted record.
pub open spec fn opt_book_view(o: Option<Book>) -> Option<BookV> {
    match o {
        Some(b) => Some(b@),
        None => None,
    }
}

/// Runs the extractor over a whole event sequence and collects every
/// emitted record, in document order.
pub fn parse_events(events: &Vec<Event>) -> (books: Vec<Book>)
    ensures
        books@.map_values(|b: Book| b@) == books_of(events@.map_values(|e: Event| e@)),
{
    let ghost evs = events@.map_values(|e: Event| e@);
    let mut ex = Extractor::new();
    let mut books: Vec<Book> = Vec::new();
    let mut i: usize = 0;
    while i < events.len()
        invariant
            i <= evs.len(),
            evs == events@.map_values(|e: Event| e@),
            evs.len() == events@.len(),
            ex@ == run_from(init_v(), evs.take(i as int)).0,
            books@.map_values(|b: Book| b@) == run_from(init_v(), evs.take(i as int)).1,
        decreases evs.len() - i,
    {
        let ghost prefix = evs.take(i as int);
        let e = &events[i];
        proof {
            assert(e@ == evs[i as int]);
            assert(evs.take(i + 1).drop_last() =~= prefix);
            assert(evs.take(i + 1).last() == evs[i as int]);
        }
        match ex.step(e) {
            Some(b) => {
                books.push(b);
                proof {
                    assert(books@.map_values(|b2: Book| b2@) =~= run_from(
                        init_v(),
                        evs.take(i + 1),
                    ).1);
                }
            },
            None => {
                proof {
                    assert(books@.map_values(|b2: Book| b2@) =~= run_from(
                        init_v(),
                        evs.take(i + 1),
                    ).1);
                }
            },
        }
        i = i + 1;
    }
    proof {
        assert(evs.take(evs.len() as int) =~= evs);
    }
    books
}

/// What the XML reader yields on a byte input: the events, in document
/// order, each start or end element reduced to its local name, character
/// data kept, any other well-formed event and any malformed event kept as
/// their markers. The reader is deterministic on the bytes alone.
pub uninterp spec fn xml_events_of(bytes: Seq<u8>) -> Seq<EventV>;

/// Relies on xml-rs's `EventReader`: iterating it yields the document's
/// parse events in order; iteration ends after the end of the document or
/// after the first malformed event, which is yielded once.
#[verifier::external_body]
fn read_events(input: &[u8]) -> (events: Vec<Event>)
    ensures
        events@.map_values(|e: Event| e@) == xml_events_of(input@),
{
    xml::reader::EventReader::new(input)
        .into_iter()
        .map(|ev| match ev {
            Ok(xml::reader::XmlEvent::StartElement { name, .. }) => Event::Start(name.local_name),
            Ok(xml::reader::XmlEvent::EndElement { name }) => Event::End(name.local_name),
            Ok(xml::reader::XmlEvent::Characters(text)) => Event::Text(text),
            Ok(_) => Event::Other,
            Err(_) => Event::Error,
        })
        .collect()
}

/// Parses a whole XML document and yields one record per `book` element,
/// in document order.
pub fn parse(input: &[u8]) -> (books: Vec<Book>)
    ensures
        books@.map_values(|b: Book| b@) == books_of(xml_events_of(input@)),
{
    let events = read_events(input);
    parse_events(&events)
}

/// The number of closing `book` elements in an event sequence.
pub open spec fn count_book_ends(evs: Seq<EventV>) -> nat
    decreases evs.len(),
{
    if evs.len() == 0 {
        0
    } else {
        count_book_ends(evs.drop_last()) + (if evs.last() matches EventV::End(n) && n == "book"@ {
            1nat
        } else {
            0nat
        })
    }
}

proof fn lemma_run_emission_count(s: ExtractorV, evs: Seq<EventV>)
    ensures
        run_from(s, evs).1.len() == count_book_ends(evs),
    decreases evs.len(),
{
    if evs.len() > 0 {
        lemma_run_emission_count(s, evs.drop_last());
    }
}

/// One record is emitted for each closing `book` element, whatever else
/// the event sequence holds: the number of records equals the number of
/// book elements of a well-formed document.
pub proof fn lemma_record_count(evs: Seq<EventV>)
    ensures
        books_of(evs).len() == count_book_ends(evs),
{
    lemma_run_emission_count(init_v(), evs);
}

/// The closing `book` element emits exactly the accumulated record and
/// leaves a fresh accumulator with the identifier-type selector unset: no
/// field of one record can leak into the next.
pub proof fn lemma_accumulator_reset(s: ExtractorV, n: Seq<char>)
    requires
        n == "book"@,
    ensures
        step_spec(s, EventV::End(n)).1 == Some(s.book),
        step_spec(s, EventV::End(n)).0.book == empty_book_v(),
        step_spec(s, EventV::End(n)).0.id_type == IdType::Unset,
{
}

} // verus!
