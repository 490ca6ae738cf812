use vstd::prelude::*;

use crate::model::WordPair;
use crate::store::StoreError;

verus! {

/// A status marker and a message: the envelope of every failure.
#[derive(Clone, Debug)]
pub struct GenericResponse {
    pub status: String,
    pub message: String,
}

#[derive(Clone, Debug)]
pub struct WordPairData {
    pub word_pair: WordPair,
}

/// The envelope of a success that carries one record.
#[derive(Clone, Debug)]
pub struct SingleWordPairResponse {
    pub status: String,
    pub data: WordPairData,
}

/// The envelope of a list: how many records, and the records.
#[derive(Clone, Debug)]
pub struct WordPairListResponse {
    pub status: String,
    pub results: usize,
    pub word_pairs: Vec<WordPair>,
}

pub const STATUS_OK: u16 = 200;

pub const STATUS_CREATED: u16 = 201;

pub const STATUS_NO_CONTENT: u16 = 204;

pub const STATUS_NOT_FOUND: u16 = 404;

pub const STATUS_CONFLICT: u16 = 409;

pub open spec fn success_marker() -> Seq<char> {
    "success"@
}

pub open spec fn fail_marker() -> Seq<char> {
    "fail"@
}

/// The message of a create whose English word is taken.
pub open spec fn duplicate_message(w: Seq<char>) -> Seq<char> {
    "Word pair with English word, \""@ + w + "\" already exists"@
}

/// The message of a get whose id matches no record.
pub open spec fn get_missing_message(id: Seq<char>) -> Seq<char> {
    "Word pair with ID: "@ + id + " not found"@
}

/// The message of an edit whose id matches no record.
pub open spec fn edit_missing_message(id: Seq<char>) -> Seq<char> {
    "Word pair with ID, \""@ + id + "\" not found"@
}

/// The message of a delete whose id matches no record.
pub open spec fn delete_missing_message(id: Seq<char>) -> Seq<char> {
    "Word pair with ID \""@ + id + "\" not found"@
}

/// The transport status of each store failure.
pub open spec fn spec_status_of(e: StoreError) -> u16 {
    match e {
        StoreError::DuplicateKey(_) => STATUS_CONFLICT,
        StoreError::NotFound(_) => STATUS_NOT_FOUND,
    }
}

pub fn status_of(e: &StoreError) -> (r: u16)
    ensures
        r == spec_status_of(*e),
{
    match e {
        StoreError::DuplicateKey(_) => STATUS_CONFLICT,
        StoreError::NotFound(_) => STATUS_NOT_FOUND,
    }
}

/// `prefix`, then `middle`, then `suffix`.
pub fn enclose(prefix: &str, middle: &String, suffix: &str) -> (r: String)
    ensures
        r@ == prefix@ + middle@ + suffix@,
{
    let mut r = prefix.to_owned();
    r.append(middle.as_str());
    r.append(suffix);
    r
}

pub fn success_status() -> (r: String)
    ensures
        r@ == success_marker(),
{
    "success".to_owned()
}

pub fn fail_response(message: String) -> (r: GenericResponse)
    ensures
        r.status@ == fail_marker(),
        r.message@ == message@,
{
    GenericResponse { status: "fail".to_owned(), message }
}

pub fn duplicate_text(w: &String) -> (r: String)
    ensures
        r@ == duplicate_message(w@),
{
    enclose("Word pair with English word, \"", w, "\" already exists")
}

pub fn get_missing_text(id: &String) -> (r: String)
    ensures
        r@ == get_missing_message(id@),
{
    enclose("Word pair with ID: ", id, " not found")
}

pub fn edit_missing_text(id: &String) -> (r: String)
    ensures
        r@ == edit_missing_message(id@),
{
    enclose("Word pair with ID, \"", id, "\" not found")
}

pub fn delete_missing_text(id: &String) -> (r: String)
    ensures
        r@ == delete_missing_message(id@),
{
    enclose("Word pair with ID \"", id, "\" not found")
}

} // verus!
