use vstd::prelude::*;

use crate::clock::Timestamp;

verus! {

/// One stored word pair. As a request body only `english_word` and
/// `foreign_word` are read; the store fills in the rest.
#[derive(Clone, Debug)]
pub struct WordPair {
    pub id: Option<String>,
    pub english_word: String,
    pub foreign_word: String,
    pub favorite: Option<bool>,
    pub created_at: Option<Timestamp>,
    pub updated_at: Option<Timestamp>,
}

/// The mathematical value of a [`WordPair`]: its texts as character sequences.
pub struct WordPairModel {
    pub id: Option<Seq<char>>,
    pub english_word: Seq<char>,
    pub foreign_word: Seq<char>,
    pub favorite: Option<bool>,
    pub created_at: Option<Timestamp>,
    pub updated_at: Option<Timestamp>,
}

pub open spec fn text_of(s: Option<String>) -> Option<Seq<char>> {
    match s {
        Some(t) => Some(t@),
        None => None,
    }
}

impl View for WordPair {
    type V = WordPairModel;

    open spec fn view(&self) -> WordPairModel {
        WordPairModel {
            id: text_of(self.id),
            english_word: self.english_word@,
            foreign_word: self.foreign_word@,
            favorite: self.favorite,
            created_at: self.created_at,
            updated_at: self.updated_at,
        }
    }
}

impl WordPairModel {
    /// A record as the store keeps it: every field that the store assigns
    /// is present, and it was not updated before it was created.
    pub open spec fn is_complete(self) -> bool {
        &&& self.id.is_some()
        &&& self.favorite.is_some()
        &&& self.created_at.is_some()
        &&& self.updated_at.is_some()
        &&& self.created_at.unwrap().spec_le(self.updated_at.unwrap())
    }
}

pub fn copy_text(s: &Option<String>) -> (r: Option<String>)
    ensures
        text_of(r) == text_of(*s),
{
    match s {
        Some(t) => Some(t.clone()),
        None => None,
    }
}

impl WordPair {
    /// A copy with the same value; what the store hands out, so that callers
    /// never hold its own records.
    pub fn snapshot(&self) -> (r: WordPair)
        ensures
            r@ == self@,
    {
        WordPair {
            id: copy_text(&self.id),
            english_word: self.english_word.clone(),
            foreign_word: self.foreign_word.clone(),
            favorite: self.favorite,
            created_at: self.created_at,
            updated_at: self.updated_at,
        }
    }
}

/// Pagination of a list request: `page` counts from 1 (default 1), `limit`
/// is the page size (default 10).
#[derive(Clone, Copy, Debug, Default, PartialEq, Eq, Structural)]
pub struct QueryOptions {
    pub page: Option<usize>,
    pub limit: Option<usize>,
}

/// The page size used when a request names none.
pub const DEFAULT_LIMIT: usize = 10;

impl QueryOptions {
    pub open spec fn spec_page(self) -> usize {
        match self.page {
            Some(p) => p,
            None => 1,
        }
    }

    pub open spec fn spec_limit(self) -> usize {
        match self.limit {
            Some(l) => l,
            None => DEFAULT_LIMIT,
        }
    }

    /// Index of the first record on the page. Page 0 is read as page 1.
    pub open spec fn spec_offset(self) -> int {
        if self.spec_page() == 0 {
            0
        } else {
            (self.spec_page() - 1) * self.spec_limit()
        }
    }
}

/// A partial update: a field that is absent, or a text that is empty, keeps
/// the stored value.
#[derive(Clone, Debug)]
pub struct UpdateWordPairSchema {
    pub english_word: Option<String>,
    pub foreign_word: Option<String>,
    pub favorite: Option<bool>,
}

} // verus!
