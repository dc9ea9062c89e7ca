//! The account and transaction databases, kept in `BTreeMap`s.
use crate::payment_system::account::Account;
use crate::payment_system::database::Database;
use crate::payment_system::database::DatabaseError;
use crate::payment_system::transaction::Transaction;
use crate::payment_system::types::ClientId;
use crate::payment_system::types::TransactionId;
use std::collections::BTreeMap;
use vstd::prelude::*;

verus! {

/// A database held in memory, in key order.
pub type BTreeMapDatabase<K, R> = BTreeMap<K, R>;

impl Database for BTreeMapDatabase<ClientId, Account> {
    type Key = ClientId;

    type Record = Account;

    open spec fn records(&self) -> Map<ClientId, Account> {
        self@
    }

    fn insert(&mut self, key: ClientId, record: Account) -> (r: Result<(), DatabaseError>) {
        BTreeMap::insert(self, key, record);
        Ok(())
    }

    fn retrieve(&self, key: &ClientId) -> (r: Result<Option<Account>, DatabaseError>) {
        match self.get(key) {
            Some(record) => Ok(Some(*record)),
            None => Ok(None),
        }
    }

    fn delete(&mut self, key: ClientId) -> (r: Result<(), DatabaseError>) {
        self.remove(&key);
        Ok(())
    }
}

impl Database for BTreeMapDatabase<TransactionId, Transaction> {
    type Key = TransactionId;

    type Record = Transaction;

    open spec fn records(&self) -> Map<TransactionId, Transaction> {
        self@
    }

    fn insert(&mut self, key: TransactionId, record: Transaction) -> (r: Result<(), DatabaseError>) {
        BTreeMap::insert(self, key, record);
        Ok(())
    }

    fn retrieve(&self, key: &TransactionId) -> (r: Result<Option<Transaction>, DatabaseError>) {
        match self.get(key) {
            Some(record) => Ok(Some(*record)),
            None => Ok(None),
        }
    }

    fn delete(&mut self, key: TransactionId) -> (r: Result<(), DatabaseError>) {
        self.remove(&key);
        Ok(())
    }
}

} // verus!
