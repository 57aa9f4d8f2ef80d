//! Book identifiers: a tagged union of the two ISBN variants.

use vstd::prelude::*;
use vstd::string::StringExecFns;

use crate::text::dec_of;

verus! {

/// A classified book identifier: an ISBN-10 keeps its exact source text
/// (it may end in the checksum character `X`), an ISBN-13 is stored as the
/// parsed unsigned number.
#[derive(Debug)]
pub enum Isbn {
    Isbn10(String),
    Isbn13(u64),
}

/// The mathematical value of an identifier.
pub enum IsbnV {
    Isbn10(Seq<char>),
    Isbn13(u64),
}

impl View for Isbn {
    type V = IsbnV;

    open spec fn view(&self) -> IsbnV {
        match self {
            Isbn::Isbn10(text) => IsbnV::Isbn10(text@),
            Isbn::Isbn13(value) => IsbnV::Isbn13(*value),
        }
    }
}

impl PartialEq for Isbn {
    fn eq(&self, other: &Self) -> bool {
        match self {
            Isbn::Isbn10(a) => match other {
                Isbn::Isbn10(b) => a.eq(b),
                _ => false,
            },
            Isbn::Isbn13(a) => match other {
                Isbn::Isbn13(b) => *a == *b,
                _ => false,
            },
        }
    }
}

impl vstd::std_specs::cmp::PartialEqSpecImpl for Isbn {
    open spec fn obeys_eq_spec() -> bool {
        true
    }

    open spec fn eq_spec(&self, other: &Isbn) -> bool {
        self@ == other@
    }
}

/// The identifier rendered with its variant prefix, as the record display
/// shows it.
pub open spec fn isbn_display_of(v: IsbnV) -> Seq<char> {
    match v {
        IsbnV::Isbn10(text) => "ISBN10:"@ + text,
        IsbnV::Isbn13(value) => "ISBN13:"@ + dec_of(value as nat),
    }
}

/// The identifier's bare value, without any variant prefix, as the output
/// row carries it.
pub open spec fn isbn_bare_of(v: IsbnV) -> Seq<char> {
    match v {
        IsbnV::Isbn10(text) => text,
        IsbnV::Isbn13(value) => dec_of(value as nat),
    }
}

impl Isbn {
    /// Renders the identifier with its variant prefix.
    pub fn to_string(&self) -> (r: String)
        ensures
            r@ == isbn_display_of(self@),
    {
        match self {
            Isbn::Isbn10(text) => {
                let mut s = "ISBN10:".to_owned();
                s.append(text.as_str());
                s
            },
            Isbn::Isbn13(value) => {
                let mut s = "ISBN13:".to_owned();
                s.append(crate::text::u64_to_string(*value).as_str());
                s
            },
        }
    }

    /// Renders the identifier's bare value, without any variant prefix.
    pub fn bare_value(&self) -> (r: String)
        ensures
            r@ == isbn_bare_of(self@),
    {
        match self {
            Isbn::Isbn10(text) => text.clone(),
            Isbn::Isbn13(value) => crate::text::u64_to_string(*value),
        }
    }
}

} // verus!
