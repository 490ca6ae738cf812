use vstd::prelude::*;

use crate::clock::Timestamp;
use crate::model::{UpdateWordPairSchema, WordPairModel};
use crate::store::{
    first_with_id, has_id, lemma_position_of_id, lemma_position_of_id_found, merged,
    position_of_id, title_taken, titles_unique,
};

verus! {

/// Creating keeps English words unique: appending a record whose English
/// word no record has yet leaves at most one record per English word.
/// (A create whose word is taken fails and changes nothing.)
pub proof fn lemma_create_keeps_titles_unique(s: Seq<WordPairModel>, rec: WordPairModel)
    requires
        titles_unique(s),
        !title_taken(s, rec.english_word),
    ensures
        titles_unique(s.push(rec)),
{
    let t = s.push(rec);
    assert forall|i: int, j: int|
        0 <= i < t.len() && 0 <= j < t.len() && i != j implies t[i].english_word
        != t[j].english_word by {
        if i == s.len() {
            assert(s[j].english_word != rec.english_word);
        } else if j == s.len() {
            assert(s[i].english_word != rec.english_word);
        }
    }
}

/// Deleting keeps English words unique.
pub proof fn lemma_delete_keeps_titles_unique(s: Seq<WordPairModel>, k: int)
    requires
        titles_unique(s),
        0 <= k < s.len(),
    ensures
        titles_unique(s.remove(k)),
{
    let t = s.remove(k);
    assert forall|i: int, j: int|
        0 <= i < t.len() && 0 <= j < t.len() && i != j implies t[i].english_word
        != t[j].english_word by {
        let a = if i < k { i } else { i + 1 };
        let b = if j < k { j } else { j + 1 };
        assert(t[i] == s[a] && t[j] == s[b]);
    }
}

/// The id given to a created record is the one that later operations find
/// it by: when no record had that id before, the record appended with it is
/// the one that get, edit and delete on that id act on.
pub proof fn lemma_created_id_finds_record(s: Seq<WordPairModel>, rec: WordPairModel, id: Seq<char>)
    requires
        rec.id == Some(id),
        !has_id(s, id),
    ensures
        has_id(s.push(rec), id),
        position_of_id(s.push(rec), id) == s.len(),
        s.push(rec)[position_of_id(s.push(rec), id)] == rec,
{
    let t = s.push(rec);
    assert forall|j: int| 0 <= j < s.len() implies t[j].id != Some(id) by {
        assert(t[j] == s[j]);
    }
    assert(first_with_id(t, id, s.len() as int));
    lemma_position_of_id(t, id, s.len() as int);
}

/// An edit keeps the identity of the record it changes: the new record has
/// the same id, and stands where later operations on that id look.
pub proof fn lemma_edit_keeps_identity(
    s: Seq<WordPairModel>,
    id: Seq<char>,
    update: UpdateWordPairSchema,
    at: Timestamp,
)
    requires
        has_id(s, id),
    ensures
        ({
            let k = position_of_id(s, id);
            let p = merged(s[k], update, at);
            &&& p.id == Some(id)
            &&& position_of_id(s.update(k, p), id) == k
        }),
{
    lemma_position_of_id_found(s, id);
    let k = position_of_id(s, id);
    let p = merged(s[k], update, at);
    let t = s.update(k, p);
    assert(first_with_id(t, id, k));
    lemma_position_of_id(t, id, k);
}

/// An edit that only sets `favorite` to true keeps both words, the id and
/// the creation time, sets the flag, and moves the update time forward or
/// keeps it.
pub proof fn lemma_favorite_only_edit(current: WordPairModel, at: Timestamp)
    requires
        current.is_complete(),
    ensures
        ({
            let p = merged(
                current,
                UpdateWordPairSchema { english_word: None, foreign_word: None, favorite: Some(true) },
                at,
            );
            &&& p.english_word == current.english_word
            &&& p.foreign_word == current.foreign_word
            &&& p.favorite == Some(true)
            &&& p.id == current.id
            &&& p.created_at == current.created_at
            &&& current.updated_at.unwrap().spec_le(p.updated_at.unwrap())
            &&& p.is_complete()
        }),
{
}

/// A delete removes exactly one record: one fewer, those before it in
/// place, those after it moved up by one and otherwise unchanged.
pub proof fn lemma_delete_removes_one(s: Seq<WordPairModel>, k: int)
    requires
        0 <= k < s.len(),
    ensures
        s.remove(k).len() == s.len() - 1,
        forall|j: int| 0 <= j < k ==> s.remove(k)[j] == s[j],
        forall|j: int| k <= j < s.len() - 1 ==> s.remove(k)[j] == s[j + 1],
{
}

} // verus!
