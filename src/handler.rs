use vstd::prelude::*;

use crate::model::{QueryOptions, UpdateWordPairSchema, WordPair};
use crate::response::{
    delete_missing_message, delete_missing_text, duplicate_message, duplicate_text,
    edit_missing_message, edit_missing_text, fail_marker, fail_response, get_missing_message,
    get_missing_text, status_of, success_marker, success_status, GenericResponse,
    SingleWordPairResponse, WordPairData, WordPairListResponse, STATUS_CONFLICT, STATUS_CREATED,
    STATUS_NOT_FOUND, STATUS_NO_CONTENT, STATUS_OK,
};
use crate::store::{
    created_record, has_id, merged, page_of, position_of_id, title_taken, titles_unique, Store,
};

verus! {

/// The options of a list request that carries none.
pub open spec fn options_or_default(opts: Option<QueryOptions>) -> QueryOptions {
    match opts {
        Some(o) => o,
        None => QueryOptions { page: None, limit: None },
    }
}

/// A success carrying one record.
fn single(code: u16, p: WordPair) -> (r: (u16, SingleWordPairResponse))
    ensures
        r.0 == code,
        r.1.status@ == success_marker(),
        r.1.data.word_pair@ == p@,
{
    (code, SingleWordPairResponse { status: success_status(), data: WordPairData { word_pair: p } })
}

/// Lists the page of records that `opts` selects (page 1 of 10 when absent).
pub fn word_pairs_list_handler(opts: Option<QueryOptions>, db: &Store) -> (r: WordPairListResponse)
    ensures
        r.status@ == success_marker(),
        r.results == r.word_pairs@.len(),
        r.word_pairs@.map_values(|p: WordPair| p@) == page_of(db@, options_or_default(opts)),
{
    let opts = match opts {
        Some(o) => o,
        None => QueryOptions { page: None, limit: None },
    };
    let word_pairs = db.list(&opts);
    WordPairListResponse { status: success_status(), results: word_pairs.len(), word_pairs }
}

/// Creates a record from `body`: 201 with the record, or 409 when its
/// English word is taken.
pub fn create_word_pair_handler(db: &mut Store, body: WordPair) -> (r: Result<
    (u16, SingleWordPairResponse),
    (u16, GenericResponse),
>)
    requires
        old(db).wf(),
    ensures
        final(db).wf(),
        titles_unique(old(db)@) ==> titles_unique(final(db)@),
        r.is_ok() <==> !title_taken(old(db)@, body@.english_word),
        match r {
            Ok((code, resp)) => {
                let p = resp.data.word_pair@;
                &&& code == STATUS_CREATED
                &&& resp.status@ == success_marker()
                &&& p == created_record(body@, p.id.unwrap(), p.created_at.unwrap())
                &&& final(db)@ == old(db)@.push(p)
            },
            Err((code, resp)) => {
                &&& code == STATUS_CONFLICT
                &&& resp.status@ == fail_marker()
                &&& resp.message@ == duplicate_message(body@.english_word)
                &&& final(db)@ == old(db)@
            },
        },
{
    let english_word = body.english_word.clone();
    match db.create(body) {
        Ok(p) => Ok(single(STATUS_CREATED, p)),
        Err(e) => Err((status_of(&e), fail_response(duplicate_text(&english_word)))),
    }
}

/// The record with the id `id`: 200 with it, or 404.
pub fn get_word_pair_handler(id: String, db: &Store) -> (r: Result<
    (u16, SingleWordPairResponse),
    (u16, GenericResponse),
>)
    ensures
        r.is_ok() <==> has_id(db@, id@),
        match r {
            Ok((code, resp)) => {
                &&& code == STATUS_OK
                &&& resp.status@ == success_marker()
                &&& resp.data.word_pair@ == db@[position_of_id(db@, id@)]
            },
            Err((code, resp)) => {
                &&& code == STATUS_NOT_FOUND
                &&& resp.status@ == fail_marker()
                &&& resp.message@ == get_missing_message(id@)
            },
        },
{
    match db.get(&id) {
        Ok(p) => Ok(single(STATUS_OK, p)),
        Err(e) => Err((status_of(&e), fail_response(get_missing_text(&id)))),
    }
}

/// Applies the partial update `body` to the record with the id `id`: 200
/// with the updated record, or 404.
pub fn edit_word_pair_handler(id: String, db: &mut Store, body: UpdateWordPairSchema) -> (r: Result<
    (u16, SingleWordPairResponse),
    (u16, GenericResponse),
>)
    requires
        old(db).wf(),
    ensures
        final(db).wf(),
        r.is_ok() <==> has_id(old(db)@, id@),
        match r {
            Ok((code, resp)) => {
                let k = position_of_id(old(db)@, id@);
                let p = resp.data.word_pair@;
                &&& code == STATUS_OK
                &&& resp.status@ == success_marker()
                &&& p == merged(old(db)@[k], body, p.updated_at.unwrap())
                &&& final(db)@ == old(db)@.update(k, p)
            },
            Err((code, resp)) => {
                &&& code == STATUS_NOT_FOUND
                &&& resp.status@ == fail_marker()
                &&& resp.message@ == edit_missing_message(id@)
                &&& final(db)@ == old(db)@
            },
        },
{
    match db.edit(&id, body) {
        Ok(p) => Ok(single(STATUS_OK, p)),
        Err(e) => Err((status_of(&e), fail_response(edit_missing_text(&id)))),
    }
}

/// Deletes the record with the id `id`: 204, or 404.
pub fn delete_word_pair_handler(id: String, db: &mut Store) -> (r: Result<u16, (u16, GenericResponse)>)
    requires
        old(db).wf(),
    ensures
        final(db).wf(),
        titles_unique(old(db)@) ==> titles_unique(final(db)@),
        r.is_ok() <==> has_id(old(db)@, id@),
        match r {
            Ok(code) => {
                &&& code == STATUS_NO_CONTENT
                &&& final(db)@ == old(db)@.remove(position_of_id(old(db)@, id@))
            },
            Err((code, resp)) => {
                &&& code == STATUS_NOT_FOUND
                &&& resp.status@ == fail_marker()
                &&& resp.message@ == delete_missing_message(id@)
                &&& final(db)@ == old(db)@
            },
        },
{
    match db.delete(&id) {
        Ok(()) => Ok(STATUS_NO_CONTENT),
        Err(e) => Err((status_of(&e), fail_response(delete_missing_text(&id)))),
    }
}

} // verus!
