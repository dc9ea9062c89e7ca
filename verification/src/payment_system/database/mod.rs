//! A key/record store interface, and its implementation by in-memory maps.
pub mod btree_map;

pub use btree_map::BTreeMapDatabase;

use vstd::prelude::*;

verus! {

/// Why a database operation failed. The in-memory databases never fail, so
/// they never return it.
#[derive(Debug)]
pub enum DatabaseError {
    /// The store could not be reached.
    Unavailable,
}

/// A store of records by key.
pub trait Database {
    type Key;

    type Record;

    /// The records held, by key.
    spec fn records(&self) -> Map<Self::Key, Self::Record>;

    /// Inserts a new record into the database. Replaces any existing records.
    fn insert(&mut self, key: Self::Key, record: Self::Record) -> (r: Result<(), DatabaseError>)
        ensures
            r is Ok,
            final(self).records() == old(self).records().insert(key, record),
    ;

    /// Retrieves a record from the database if it exists.
    fn retrieve(&self, key: &Self::Key) -> (r: Result<Option<Self::Record>, DatabaseError>)
        ensures
            r is Ok,
            r matches Ok(found) ==> (found is Some <==> self.records().contains_key(*key)),
            r matches Ok(Some(record)) ==> record == self.records()[*key],
    ;

    /// Removes the record under `key`, if there is one.
    fn delete(&mut self, key: Self::Key) -> (r: Result<(), DatabaseError>)
        ensures
            r is Ok,
            final(self).records() == old(self).records().remove(key),
    ;
}

} // verus!
