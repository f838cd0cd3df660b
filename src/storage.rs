//! Adapter from a foreign, synchronous key-value backend to the collection
//! interface that the engine expects.
//!
//! The adapter only relays: every call goes to the backend
//! once, nothing is cached, and each backend outcome is mapped as
//! `get_outcome`, `write_outcome` and `scan_outcome` state. A backend
//! failure is never dropped: it comes back as `DbError::CustomError` with
//! the backend's text, also in the middle of a scan.
use vstd::prelude::*;
use vstd::string::*;
use crate::error::{sqlite_error_text, SQLiteError};

verus! {

/// One entry yielded by a backend scan.
#[derive(Debug, Clone)]
pub struct Tuple {
    pub key: String,
    pub value: Vec<u8>,
}

/// A scan over a backend collection, implemented by the foreign caller.
/// Each call yields the next entry, `None` at the end, or a backend failure.
pub trait DbCollectionIteratorInterface {
    /// Whether `r` is an answer this scan gives to a call of `next`.
    closed spec fn next_answers(&self, r: Result<Option<Tuple>, SQLiteError>) -> bool {
        true
    }

    fn next(&self) -> (r: Result<Option<Tuple>, SQLiteError>)
        ensures
            self.next_answers(r),
    ;
}

/// One named collection of a foreign backend, implemented by the caller.
///
/// The spec functions name what the backend answers to each request; the
/// adapter's contracts say which request it makes and how it maps the answer.
/// A backend that states nothing of its answers keeps the defaults, which
/// admit any answer.
pub trait DbCollectionInterface {
    type Iter: DbCollectionIteratorInterface;

    /// Whether `r` is an answer this collection gives to `get(key)`.
    closed spec fn get_answers(&self, key: Seq<char>, r: Result<Option<Vec<u8>>, SQLiteError>) -> bool {
        true
    }

    /// Whether `r` is an answer this collection gives to `put(key, value)`.
    closed spec fn put_answers(&self, key: Seq<char>, value: Seq<u8>, r: Result<(), SQLiteError>) -> bool {
        true
    }

    /// Whether `r` is an answer this collection gives to `del(key)`.
    closed spec fn del_answers(&self, key: Seq<char>, r: Result<(), SQLiteError>) -> bool {
        true
    }

    /// Whether `it` is a scan this collection gives to `iter(reverse, prefix)`.
    closed spec fn scan_answers(&self, reverse: bool, prefix: Seq<char>, it: Self::Iter) -> bool {
        true
    }

    fn get(&self, key: String) -> (r: Result<Option<Vec<u8>>, SQLiteError>)
        ensures
            self.get_answers(key@, r),
    ;

    fn put(&self, key: String, value: Vec<u8>) -> (r: Result<(), SQLiteError>)
        ensures
            self.put_answers(key@, value@, r),
    ;

    fn del(&self, key: String) -> (r: Result<(), SQLiteError>)
        ensures
            self.del_answers(key@, r),
    ;

    /// Entries whose key starts with `prefix`, in descending key order when
    /// `reverse` holds and in ascending order otherwise.
    fn iter(&self, reverse: bool, prefix: String) -> (r: Self::Iter)
        ensures
            self.scan_answers(reverse, prefix@, r),
    ;
}

/// A foreign backend that hands out collections by name.
pub trait DatabaseManagerInterface {
    type Collection: DbCollectionInterface;

    /// Whether `c` is the collection this backend hands out for `identifier`.
    closed spec fn collection_named(&self, identifier: Seq<char>, c: Self::Collection) -> bool {
        true
    }

    fn create_collection(&self, identifier: String) -> (r: Self::Collection)
        ensures
            self.collection_named(identifier@, r),
    ;
}

/// Storage failure as the engine sees it.
#[derive(Debug, Clone, PartialEq, Eq)]
pub enum DbError {
    /// The key is absent: an expected, recoverable outcome.
    EntryNotFound,
    /// Any other backend failure, with its diagnostic text.
    CustomError(String),
}

/// `out` is the engine-side result of a backend `get` that returned `b`.
pub open spec fn get_outcome(
    b: Result<Option<Vec<u8>>, SQLiteError>,
    out: Result<Vec<u8>, DbError>,
) -> bool {
    match b {
        Ok(Some(data)) => out == Ok::<Vec<u8>, DbError>(data),
        Ok(None) => out == Err::<Vec<u8>, DbError>(DbError::EntryNotFound),
        Err(e) => out matches Err(DbError::CustomError(d)) && d@ == sqlite_error_text(e),
    }
}

/// `out` is the engine-side result of a backend `put` or `del` that returned `b`.
pub open spec fn write_outcome(b: Result<(), SQLiteError>, out: Result<(), DbError>) -> bool {
    match b {
        Ok(_) => out == Ok::<(), DbError>(()),
        Err(e) => out matches Err(DbError::CustomError(d)) && d@ == sqlite_error_text(e),
    }
}

/// `out` is what a scan yields for a backend step `b`: the entry, nothing at
/// the end of the scan, or the backend's failure with its text.
pub open spec fn scan_outcome(
    b: Result<Option<Tuple>, SQLiteError>,
    out: Option<Result<(String, Vec<u8>), DbError>>,
) -> bool {
    match b {
        Ok(Some(t)) => out == Some(Ok::<(String, Vec<u8>), DbError>((t.key, t.value))),
        Ok(None) => out is None,
        Err(e) => out matches Some(Err(DbError::CustomError(d))) && d@ == sqlite_error_text(e),
    }
}

/// Maps a backend failure to the engine's storage error, keeping its text.
pub fn custom_error(e: SQLiteError) -> (r: DbError)
    ensures
        r matches DbError::CustomError(d) && d@ == sqlite_error_text(e),
{
    DbError::CustomError(e.message())
}

/// Maps the outcome of a backend `get`.
pub fn map_get_result(b: Result<Option<Vec<u8>>, SQLiteError>) -> (r: Result<Vec<u8>, DbError>)
    ensures
        get_outcome(b, r),
{
    match b {
        Ok(Some(data)) => Ok(data),
        Ok(None) => Err(DbError::EntryNotFound),
        Err(e) => Err(custom_error(e)),
    }
}

/// Maps the outcome of a backend `put` or `del`.
pub fn map_write_result(b: Result<(), SQLiteError>) -> (r: Result<(), DbError>)
    ensures
        write_outcome(b, r),
{
    match b {
        Ok(_) => Ok(()),
        Err(e) => Err(custom_error(e)),
    }
}

/// Maps one step of a backend scan.
pub fn map_scan_item(b: Result<Option<Tuple>, SQLiteError>) -> (r: Option<
    Result<(String, Vec<u8>), DbError>,
>)
    ensures
        scan_outcome(b, r),
{
    match b {
        Ok(Some(t)) => Some(Ok((t.key, t.value))),
        Ok(None) => None,
        Err(e) => Some(Err(custom_error(e))),
    }
}

/// A backend scan seen as the engine's iterator of `(key, value)` pairs.
pub struct WrapperIter<I> {
    inner_iterator: I,
}

impl<I: DbCollectionIteratorInterface> WrapperIter<I> {
    /// The backend scan this iterator draws from.
    pub closed spec fn inner(&self) -> I {
        self.inner_iterator
    }

    pub fn new(inner_iterator: I) -> (r: Self)
        ensures
            r.inner() == inner_iterator,
    {
        WrapperIter { inner_iterator }
    }

    /// The next entry, `None` at the end of the scan, or the backend's
    /// failure: one step of the backend scan per call.
    pub fn next(&self) -> (r: Option<Result<(String, Vec<u8>), DbError>>)
        ensures
            exists|b: Result<Option<Tuple>, SQLiteError>|
                self.inner().next_answers(b) && scan_outcome(b, r),
    {
        let b = self.inner_iterator.next();
        map_scan_item(b)
    }
}

/// A backend collection seen as the engine's collection.
pub struct WrapperCollection<C> {
    inner_collection: C,
}

impl<C: DbCollectionInterface> WrapperCollection<C> {
    /// The backend collection this handle reaches.
    pub closed spec fn inner(&self) -> C {
        self.inner_collection
    }

    pub fn new(inner_collection: C) -> (r: Self)
        ensures
            r.inner() == inner_collection,
    {
        WrapperCollection { inner_collection }
    }

    /// The value stored under `key`; `EntryNotFound` when it is absent.
    pub fn get(&self, key: &str) -> (r: Result<Vec<u8>, DbError>)
        ensures
            exists|b: Result<Option<Vec<u8>>, SQLiteError>|
                self.inner().get_answers(key@, b) && get_outcome(b, r),
    {
        let b = self.inner_collection.get(key.to_owned());
        map_get_result(b)
    }

    /// Stores `data` under `key`.
    pub fn put(&self, key: &str, data: Vec<u8>) -> (r: Result<(), DbError>)
        ensures
            exists|b: Result<(), SQLiteError>|
                self.inner().put_answers(key@, data@, b) && write_outcome(b, r),
    {
        let b = self.inner_collection.put(key.to_owned(), data);
        map_write_result(b)
    }

    /// Removes `key`.
    pub fn del(&self, key: &str) -> (r: Result<(), DbError>)
        ensures
            exists|b: Result<(), SQLiteError>|
                self.inner().del_answers(key@, b) && write_outcome(b, r),
    {
        let b = self.inner_collection.del(key.to_owned());
        map_write_result(b)
    }

    /// A fresh scan of the entries whose key starts with `prefix`. It is not
    /// restartable: a second pass needs a second call.
    pub fn iter(&self, reverse: bool, prefix: String) -> (r: WrapperIter<C::Iter>)
        ensures
            self.inner().scan_answers(reverse, prefix@, r.inner()),
    {
        WrapperIter::new(self.inner_collection.iter(reverse, prefix))
    }
}

/// A foreign backend seen as the engine's database manager.
pub struct WrapperManager<M> {
    pub inner_manager: M,
}

impl<M: DatabaseManagerInterface> WrapperManager<M> {
    pub fn new(inner_manager: M) -> (r: Self)
        ensures
            r.inner_manager == inner_manager,
    {
        WrapperManager { inner_manager }
    }

    /// A handle on the backend collection named `identifier`. Handles made
    /// for one name all reach the backend's one collection of that name.
    pub fn create_collection(&self, identifier: &str) -> (r: WrapperCollection<M::Collection>)
        ensures
            self.inner_manager.collection_named(identifier@, r.inner()),
    {
        WrapperCollection::new(self.inner_manager.create_collection(identifier.to_owned()))
    }
}

} // verus!
