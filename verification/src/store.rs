//! The backing store: a durable map from byte keys to byte values.
use vstd::prelude::*;
use vstd::utf8::{decode_utf8, valid_utf8};

verus! {

/// The handle of a `sled` database. What it holds is named by [`db_entries`].
#[verifier::external_type_specification]
#[verifier::external_body]
pub struct ExDb(sled::Db);

/// The error of a `sled` operation. It is carried, never looked into.
#[verifier::external_type_specification]
#[verifier::external_body]
pub struct ExStoreError(sled::Error);

/// What the store holds: the value under each key. The handle is taken to be
/// the only writer of its store.
pub uninterp spec fn db_entries(db: sled::Db) -> Map<Seq<u8>, Seq<u8>>;

/// Calls `sled::Tree::get` through the handle. On success the result is the
/// value the store holds under `key`, or `None` where it holds none.
#[verifier::external_body]
pub(crate) fn db_get(db: &sled::Db, key: &[u8]) -> (r: Result<Option<Vec<u8>>, sled::Error>)
    ensures
        match r {
            Ok(Some(v)) => db_entries(*db).contains_key(key@) && db_entries(*db)[key@] == v@,
            Ok(None) => !db_entries(*db).contains_key(key@),
            Err(_) => true,
        },
{
    db.get(key).map(|found| found.map(|v| v.to_vec()))
}

/// Calls `sled::Tree::insert` through the handle. On success the store holds
/// `value` under `key` and is otherwise as before. Nothing is claimed of the
/// store after a failure.
#[verifier::external_body]
pub(crate) fn db_insert(db: &mut sled::Db, key: &[u8], value: &[u8]) -> (r: Result<(), sled::Error>)
    ensures
        r is Ok ==> db_entries(*final(db)) == db_entries(*old(db)).insert(key@, value@),
{
    db.insert(key, value).map(|_| ())
}

/// Calls `sled::Tree::flush` through the handle, which writes what is pending
/// to disk.
#[verifier::external_body]
pub(crate) fn db_flush(db: &sled::Db) -> (r: Result<(), sled::Error>) {
    db.flush().map(|_| ())
}

/// Calls `String::from_utf8`: the text that the bytes encode, or `None` where
/// they are not UTF-8.
#[verifier::external_body]
pub(crate) fn text_of_bytes(bytes: Vec<u8>) -> (r: Option<String>)
    ensures
        match r {
            Some(s) => valid_utf8(bytes@) && s@ == decode_utf8(bytes@),
            None => !valid_utf8(bytes@),
        },
{
    String::from_utf8(bytes).ok()
}

} // verus!
