use vstd::prelude::*;

use crate::clock::{now, Timestamp};
use crate::ids::new_id;
use crate::laws::{lemma_create_keeps_titles_unique, lemma_delete_keeps_titles_unique};
use crate::model::{QueryOptions, UpdateWordPairSchema, WordPair, WordPairModel};

verus! {

/// Why a store operation failed.
#[derive(Clone, Debug)]
pub enum StoreError {
    /// A record with this English word already exists (the existing word).
    DuplicateKey(String),
    /// No record has this id (the id asked for).
    NotFound(String),
}

/// The records of the store, in the order they were created.
pub struct Store {
    records: Vec<WordPair>,
}

impl View for Store {
    type V = Seq<WordPairModel>;

    closed spec fn view(&self) -> Seq<WordPairModel> {
        self.records@.map_values(|p: WordPair| p@)
    }
}

/// Some record of `s` has the id `id`.
pub open spec fn has_id(s: Seq<WordPairModel>, id: Seq<char>) -> bool {
    exists|i: int| 0 <= i < s.len() && s[i].id == Some(id)
}

/// `i` is the first position of `s` whose record has the id `id`.
pub open spec fn first_with_id(s: Seq<WordPairModel>, id: Seq<char>, i: int) -> bool {
    &&& 0 <= i < s.len()
    &&& s[i].id == Some(id)
    &&& forall|j: int| 0 <= j < i ==> s[j].id != Some(id)
}

/// The position that the operations on `id` act on: the first record with
/// that id (meaningful when `has_id(s, id)`).
pub open spec fn position_of_id(s: Seq<WordPairModel>, id: Seq<char>) -> int {
    choose|i: int| first_with_id(s, id, i)
}

/// Some record of `s` has the English word `w`.
pub open spec fn title_taken(s: Seq<WordPairModel>, w: Seq<char>) -> bool {
    exists|i: int| 0 <= i < s.len() && s[i].english_word == w
}

/// No two records of `s` share an English word.
pub open spec fn titles_unique(s: Seq<WordPairModel>) -> bool {
    forall|i: int, j: int|
        0 <= i < s.len() && 0 <= j < s.len() && i != j ==> s[i].english_word != s[j].english_word
}

/// Every record of `s` is complete.
pub open spec fn all_complete(s: Seq<WordPairModel>) -> bool {
    forall|i: int| 0 <= i < s.len() ==> #[trigger] s[i].is_complete()
}

/// The record that a successful create stores, from the request body, the
/// drawn id and the creation time.
pub open spec fn created_record(draft: WordPairModel, id: Seq<char>, at: Timestamp) -> WordPairModel {
    WordPairModel {
        id: Some(id),
        english_word: draft.english_word,
        foreign_word: draft.foreign_word,
        favorite: Some(false),
        created_at: Some(at),
        updated_at: Some(at),
    }
}

/// An update's text wins when it is present and not empty.
pub open spec fn pick_text(update: Option<Seq<char>>, current: Seq<char>) -> Seq<char> {
    match update {
        Some(t) => if t.len() > 0 { t } else { current },
        None => current,
    }
}

/// The record after an edit at time `at`: id and creation time kept, each
/// field taken from the update where it supplies one, and the update time
/// moved to `at`, never backwards.
pub open spec fn merged(
    current: WordPairModel,
    update: UpdateWordPairSchema,
    at: Timestamp,
) -> WordPairModel {
    WordPairModel {
        id: current.id,
        english_word: pick_text(crate::model::text_of(update.english_word), current.english_word),
        foreign_word: pick_text(crate::model::text_of(update.foreign_word), current.foreign_word),
        favorite: Some(
            match update.favorite {
                Some(b) => b,
                None => current.favorite.unwrap(),
            },
        ),
        created_at: current.created_at,
        updated_at: Some(current.updated_at.unwrap().spec_latest(at)),
    }
}

pub open spec fn min_int(a: int, b: int) -> int {
    if a <= b {
        a
    } else {
        b
    }
}

/// The records on the page that `opts` selects: positions from the offset
/// up to `limit` further, cut at the end of `s`.
pub open spec fn page_of(s: Seq<WordPairModel>, opts: QueryOptions) -> Seq<WordPairModel> {
    s.subrange(
        min_int(opts.spec_offset(), s.len() as int),
        min_int(opts.spec_offset() + opts.spec_limit(), s.len() as int),
    )
}

pub proof fn lemma_first_with_id_unique(s: Seq<WordPairModel>, id: Seq<char>, i: int, k: int)
    requires
        first_with_id(s, id, i),
        first_with_id(s, id, k),
    ensures
        i == k,
{
}

pub proof fn lemma_position_of_id(s: Seq<WordPairModel>, id: Seq<char>, i: int)
    requires
        first_with_id(s, id, i),
    ensures
        position_of_id(s, id) == i,
{
    lemma_first_with_id_unique(s, id, i, position_of_id(s, id));
}

/// Where some record has the id `id`, the first one is at `position_of_id`.
pub proof fn lemma_position_of_id_found(s: Seq<WordPairModel>, id: Seq<char>)
    requires
        has_id(s, id),
    ensures
        first_with_id(s, id, position_of_id(s, id)),
{
    let i = choose|i: int| 0 <= i < s.len() && s[i].id == Some(id);
    lemma_first_at_or_before(s, id, i);
}

proof fn lemma_first_at_or_before(s: Seq<WordPairModel>, id: Seq<char>, i: int)
    requires
        0 <= i < s.len(),
        s[i].id == Some(id),
    ensures
        exists|k: int| first_with_id(s, id, k),
    decreases i,
{
    if exists|j: int| 0 <= j < i && s[j].id == Some(id) {
        let j = choose|j: int| 0 <= j < i && s[j].id == Some(id);
        lemma_first_at_or_before(s, id, j);
    } else {
        assert(first_with_id(s, id, i));
    }
}

impl Store {
    /// The store keeps only complete records.
    pub open spec fn wf(&self) -> bool {
        all_complete(self@)
    }

    pub fn new() -> (r: Store)
        ensures
            r.wf(),
            r@ == Seq::<WordPairModel>::empty(),
    {
        let r = Store { records: Vec::new() };
        assert(r@ =~= Seq::<WordPairModel>::empty());
        r
    }

    pub fn len(&self) -> (r: usize)
        ensures
            r == self@.len(),
    {
        self.records.len()
    }

    /// Linear scan for the first record with the id `id`.
    fn position_of(&self, id: &String) -> (r: Option<usize>)
        ensures
            match r {
                Some(i) => first_with_id(self@, id@, i as int),
                None => !has_id(self@, id@),
            },
    {
        let mut i: usize = 0;
        while i < self.records.len()
            invariant
                i <= self.records@.len(),
                self@.len() == self.records@.len(),
                forall|j: int| 0 <= j < i ==> self@[j].id != Some(id@),
            decreases self.records@.len() - i,
        {
            assert(self@[i as int] == self.records@[i as int]@);
            match &self.records[i].id {
                Some(t) => {
                    if *t == *id {
                        return Some(i);
                    }
                },
                None => {},
            }
            i = i + 1;
        }
        None
    }

    /// Linear scan for the first record with the English word `w`.
    fn position_of_title(&self, w: &String) -> (r: Option<usize>)
        ensures
            match r {
                Some(i) => i < self@.len() && self@[i as int].english_word == w@,
                None => !title_taken(self@, w@),
            },
    {
        let mut i: usize = 0;
        while i < self.records.len()
            invariant
                i <= self.records@.len(),
                self@.len() == self.records@.len(),
                forall|j: int| 0 <= j < i ==> self@[j].english_word != w@,
            decreases self.records@.len() - i,
        {
            assert(self@[i as int] == self.records@[i as int]@);
            if self.records[i].english_word == *w {
                return Some(i);
            }
            i = i + 1;
        }
        None
    }
}


impl Store {
    /// Appends the record built from `draft` with the id `id` and the time
    /// `at`, unless a record already has its English word.
    pub fn create_with(&mut self, draft: WordPair, id: String, at: Timestamp) -> (r: Result<
        WordPair,
        StoreError,
    >)
        requires
            old(self).wf(),
        ensures
            final(self).wf(),
            titles_unique(old(self)@) ==> titles_unique(final(self)@),
            r.is_ok() <==> !title_taken(old(self)@, draft@.english_word),
            match r {
                Ok(p) => {
                    &&& p@ == created_record(draft@, id@, at)
                    &&& final(self)@ == old(self)@.push(p@)
                },
                Err(StoreError::DuplicateKey(w)) => {
                    &&& w@ == draft@.english_word
                    &&& final(self)@ == old(self)@
                },
                Err(StoreError::NotFound(_)) => false,
            },
    {
        match self.position_of_title(&draft.english_word) {
            Some(i) => Err(StoreError::DuplicateKey(self.records[i].english_word.clone())),
            None => {
                let record = WordPair {
                    id: Some(id),
                    english_word: draft.english_word,
                    foreign_word: draft.foreign_word,
                    favorite: Some(false),
                    created_at: Some(at),
                    updated_at: Some(at),
                };
                let out = record.snapshot();
                let ghost before = self@;
                self.records.push(record);
                assert(self@ =~= before.push(out@));
                proof {
                    if titles_unique(before) {
                        lemma_create_keeps_titles_unique(before, out@);
                    }
                }
                Ok(out)
            },
        }
    }

    /// Creates a record from `draft` with a fresh random id, stamped with the
    /// current time; fails when a record already has its English word.
    pub fn create(&mut self, draft: WordPair) -> (r: Result<WordPair, StoreError>)
        requires
            old(self).wf(),
        ensures
            final(self).wf(),
            titles_unique(old(self)@) ==> titles_unique(final(self)@),
            r.is_ok() <==> !title_taken(old(self)@, draft@.english_word),
            match r {
                Ok(p) => {
                    &&& p@ == created_record(draft@, p@.id.unwrap(), p@.created_at.unwrap())
                    &&& p@.id.unwrap().len() == 36
                    &&& final(self)@ == old(self)@.push(p@)
                },
                Err(StoreError::DuplicateKey(w)) => {
                    &&& w@ == draft@.english_word
                    &&& final(self)@ == old(self)@
                },
                Err(StoreError::NotFound(_)) => false,
            },
    {
        match self.position_of_title(&draft.english_word) {
            Some(i) => Err(StoreError::DuplicateKey(self.records[i].english_word.clone())),
            None => {
                let id = new_id();
                let at = now();
                self.create_with(draft, id, at)
            },
        }
    }

    /// The record with the id `id`.
    pub fn get(&self, id: &String) -> (r: Result<WordPair, StoreError>)
        ensures
            r.is_ok() <==> has_id(self@, id@),
            match r {
                Ok(p) => p@ == self@[position_of_id(self@, id@)],
                Err(StoreError::NotFound(m)) => m@ == id@,
                Err(StoreError::DuplicateKey(_)) => false,
            },
    {
        match self.position_of(id) {
            Some(i) => {
                proof {
                    lemma_position_of_id(self@, id@, i as int);
                }
                assert(self@[i as int] == self.records@[i as int]@);
                Ok(self.records[i].snapshot())
            },
            None => Err(StoreError::NotFound(id.clone())),
        }
    }

    /// Applies `update` at time `at` to the record with the id `id`,
    /// replacing it in place.
    pub fn edit_at(&mut self, id: &String, update: UpdateWordPairSchema, at: Timestamp) -> (r:
        Result<WordPair, StoreError>)
        requires
            old(self).wf(),
        ensures
            final(self).wf(),
            r.is_ok() <==> has_id(old(self)@, id@),
            match r {
                Ok(p) => {
                    &&& p@ == merged(old(self)@[position_of_id(old(self)@, id@)], update, at)
                    &&& final(self)@ == old(self)@.update(position_of_id(old(self)@, id@), p@)
                },
                Err(StoreError::NotFound(m)) => {
                    &&& m@ == id@
                    &&& final(self)@ == old(self)@
                },
                Err(StoreError::DuplicateKey(_)) => false,
            },
    {
        match self.position_of(id) {
            Some(i) => {
                proof {
                    lemma_position_of_id(self@, id@, i as int);
                }
                let ghost before = self@;
                assert(before[i as int] == self.records@[i as int]@);
                assert(before[i as int].is_complete());
                let current = &self.records[i];
                let english_word = match &update.english_word {
                    Some(t) => if !t.as_str().is_empty() { t.clone() } else { current.english_word.clone() },
                    None => current.english_word.clone(),
                };
                let foreign_word = match &update.foreign_word {
                    Some(t) => if !t.as_str().is_empty() { t.clone() } else { current.foreign_word.clone() },
                    None => current.foreign_word.clone(),
                };
                let favorite = match update.favorite {
                    Some(b) => b,
                    None => current.favorite.unwrap(),
                };
                let updated_at = current.updated_at.unwrap().latest(&at);
                let record = WordPair {
                    id: crate::model::copy_text(&current.id),
                    english_word,
                    foreign_word,
                    favorite: Some(favorite),
                    created_at: current.created_at,
                    updated_at: Some(updated_at),
                };
                let out = record.snapshot();
                self.records.set(i, record);
                assert(self@ =~= before.update(i as int, out@));
                assert(self@[i as int].is_complete());
                assert(all_complete(self@)) by {
                    assert forall|j: int| 0 <= j < self@.len() implies #[trigger] self@[j].is_complete() by {
                        if j != i {
                            assert(self@[j] == before[j]);
                        }
                    }
                }
                Ok(out)
            },
            None => Err(StoreError::NotFound(id.clone())),
        }
    }

    /// Applies `update` to the record with the id `id`, stamped with the
    /// current time.
    pub fn edit(&mut self, id: &String, update: UpdateWordPairSchema) -> (r: Result<
        WordPair,
        StoreError,
    >)
        requires
            old(self).wf(),
        ensures
            final(self).wf(),
            r.is_ok() <==> has_id(old(self)@, id@),
            match r {
                Ok(p) => {
                    &&& p@ == merged(
                        old(self)@[position_of_id(old(self)@, id@)],
                        update,
                        p@.updated_at.unwrap(),
                    )
                    &&& final(self)@ == old(self)@.update(position_of_id(old(self)@, id@), p@)
                },
                Err(StoreError::NotFound(m)) => {
                    &&& m@ == id@
                    &&& final(self)@ == old(self)@
                },
                Err(StoreError::DuplicateKey(_)) => false,
            },
    {
        let at = now();
        self.edit_at(id, update, at)
    }

    /// Removes the record with the id `id`, keeping the order of the rest.
    pub fn delete(&mut self, id: &String) -> (r: Result<(), StoreError>)
        requires
            old(self).wf(),
        ensures
            final(self).wf(),
            titles_unique(old(self)@) ==> titles_unique(final(self)@),
            r.is_ok() <==> has_id(old(self)@, id@),
            match r {
                Ok(_) => final(self)@ == old(self)@.remove(position_of_id(old(self)@, id@)),
                Err(StoreError::NotFound(m)) => {
                    &&& m@ == id@
                    &&& final(self)@ == old(self)@
                },
                Err(StoreError::DuplicateKey(_)) => false,
            },
    {
        match self.position_of(id) {
            Some(i) => {
                proof {
                    lemma_position_of_id(self@, id@, i as int);
                }
                let ghost before = self@;
                self.records.remove(i);
                assert(self@ =~= before.remove(i as int));
                proof {
                    if titles_unique(before) {
                        lemma_delete_keeps_titles_unique(before, i as int);
                    }
                }
                Ok(())
            },
            None => Err(StoreError::NotFound(id.clone())),
        }
    }

    /// Copies of the records on the page that `opts` selects, in order.
    /// A page past the end is empty.
    pub fn list(&self, opts: &QueryOptions) -> (r: Vec<WordPair>)
        ensures
            r@.map_values(|p: WordPair| p@) == page_of(self@, *opts),
    {
        let page: usize = match opts.page {
            Some(p) => p,
            None => 1,
        };
        let limit: usize = match opts.limit {
            Some(l) => l,
            None => crate::model::DEFAULT_LIMIT,
        };
        let len = self.records.len();
        let skipped: usize = if page == 0 { 0 } else { page - 1 };
        let start: usize = match skipped.checked_mul(limit) {
            Some(o) => if o < len { o } else { len },
            None => len,
        };
        let end: usize = if limit <= len - start { start + limit } else { len };
        proof {
            let off = opts.spec_offset();
            assert(off == skipped as int * limit as int);
            assert(off >= 0) by (nonlinear_arith)
                requires off == skipped as int * limit as int;
            assert(start as int == min_int(off, len as int));
            assert(end as int == min_int(off + limit as int, len as int));
        }
        let mut out: Vec<WordPair> = Vec::new();
        let mut i: usize = start;
        while i < end
            invariant
                start <= i <= end <= self.records@.len(),
                self@.len() == self.records@.len(),
                out@.map_values(|p: WordPair| p@) =~= self@.subrange(start as int, i as int),
            decreases end - i,
        {
            assert(self@[i as int] == self.records@[i as int]@);
            let ghost prev = out@;
            let item = self.records[i].snapshot();
            out.push(item);
            assert(out@ == prev.push(item));
            assert(out@.map_values(|p: WordPair| p@) =~= prev.map_values(|p: WordPair| p@).push(
                item@,
            ));
            assert(self@.subrange(start as int, i + 1) =~= self@.subrange(start as int, i as int).push(
                self@[i as int],
            ));
            i = i + 1;
        }
        out
    }
}

} // verus!
